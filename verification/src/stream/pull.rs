//! A decoder that fetches its frames itself.
//!
//! The decoder half is handed to the C library, the manager half stays with whoever pulls
//! frames. The setup of the stream travels from the decoder to the manager, the answer to it
//! back, and a flag says whether the stream runs.

use crate::stream::c_video;
use crate::stream::c_video::{convert_decode_unit, RawDecodeUnit};
use crate::stream::channel;
use crate::stream::channel::{connected, shared_flag, FlagReader, FlagWriter, Inlet, Outlet};
use crate::stream::video;
use crate::stream::video::{
    DecodeResult, VideoCapabilities, VideoDecodeUnit, VideoDecoder, VideoFormats, VideoSetup,
};
use std::ops::Deref;
use std::sync::atomic::AtomicBool;
use std::sync::mpsc::{Receiver, Sender};
use std::sync::Arc;
use vstd::prelude::*;

verus! {

pub const ML_PULL_RENDERER_ERROR: i32 = -100001;

/// The half of a pulling decoder that the C library knows.
pub struct PullVideoDecoder {
    setup_sender: Outlet<VideoSetup>,
    setup_code_receiver: Inlet<i32>,
    active: FlagWriter,
    supported_formats: VideoFormats,
}

/// What a decoder did with the ends that it shares with its manager.
#[verifier::ext_equal]
pub struct DecoderRecord {
    /// The setups that it sent and that were accepted.
    pub sent: Seq<VideoSetup>,
    /// The answers that it took.
    pub taken: Seq<i32>,
    /// The values that it wrote into the flag.
    pub written: Seq<bool>,
}

impl View for PullVideoDecoder {
    type V = DecoderRecord;

    closed spec fn view(&self) -> DecoderRecord {
        DecoderRecord {
            sent: self.setup_sender.sent(),
            taken: self.setup_code_receiver.taken(),
            written: self.active.written(),
        }
    }
}

/// What the C library is answered: the code that the manager sent, or an error where the
/// manager is gone.
pub open spec fn reply_code(reply: Option<i32>) -> i32 {
    match reply {
        Some(code) => code,
        None => ML_PULL_RENDERER_ERROR,
    }
}

/// What the C library is answered: the code that the manager sent, or an error where the
/// manager is gone.
pub fn pull_setup_code(reply: Option<i32>) -> (r: i32)
    ensures
        r == reply_code(reply),
{
    match reply {
        Some(code) => code,
        None => ML_PULL_RENDERER_ERROR,
    }
}

/// How a setup goes: it is sent once, and where it is accepted one answer is waited for. `code`
/// is what came, or an error where the setup was not accepted or nothing came.
pub open spec fn set_up(
    before: DecoderRecord,
    setup: VideoSetup,
    accepted: bool,
    reply: Option<i32>,
    after: DecoderRecord,
    code: i32,
) -> bool {
    if accepted {
        &&& after == (DecoderRecord {
            sent: before.sent.push(setup),
            taken: channel::with_message(before.taken, reply),
            written: before.written,
        })
        &&& code == reply_code(reply)
    } else {
        after == before && code == reply_code(None)
    }
}

impl PullVideoDecoder {
    /// The formats that the decoder was made for.
    pub closed spec fn formats(&self) -> VideoFormats {
        self.supported_formats
    }

    /// Where setups go to.
    pub closed spec fn setup_end(&self) -> Option<Sender<VideoSetup>> {
        self.setup_sender.end()
    }

    /// Where the answers come from.
    pub closed spec fn answer_end(&self) -> Receiver<i32> {
        self.setup_code_receiver.end()
    }

    /// The flag that says whether the stream runs.
    pub closed spec fn activity(&self) -> Arc<AtomicBool> {
        self.active.flag()
    }

    /// Whether the two are the same decoder, whatever was done with its ends.
    pub open spec fn is_same(&self, other: &PullVideoDecoder) -> bool {
        &&& self.formats() == other.formats()
        &&& self.setup_end() == other.setup_end()
        &&& self.answer_end() == other.answer_end()
        &&& self.activity() == other.activity()
    }

    /// Whether sending the setup may turn out like this.
    pub open spec fn may_deliver(&self, setup: VideoSetup, accepted: bool) -> bool {
        match self.setup_end() {
            Some(sender) => channel::may_send(sender, setup, accepted),
            None => !accepted,
        }
    }
}

impl VideoDecoder for PullVideoDecoder {
    open spec fn pulls_frames(&self) -> bool {
        true
    }

    fn setup(&mut self, setup: VideoSetup) -> (r: i32)
        ensures
            exists|accepted: bool, reply: Option<i32>|
                {
                    &&& old(self).may_deliver(setup, accepted)
                    &&& accepted ==> channel::may_receive(old(self).answer_end(), reply)
                    &&& #[trigger] set_up(old(self)@, setup, accepted, reply, final(self)@, r)
                },
            final(self).is_same(old(self)),
    {
        if !self.setup_sender.send(setup) {
            let code = pull_setup_code(None);
            assert(set_up(old(self)@, setup, false, None, self@, code));
            return code;
        }
        let reply = self.setup_code_receiver.receive();
        let code = pull_setup_code(reply);
        assert(set_up(old(self)@, setup, true, reply, self@, code));
        code
    }

    fn start(&mut self)
        ensures
            channel::is_written(old(self).activity(), true),
            final(self)@ == (DecoderRecord { written: old(self)@.written.push(true), ..old(self)@ }),
            final(self).is_same(old(self)),
    {
        self.active.write(true);
    }

    fn stop(&mut self)
        ensures
            channel::is_written(old(self).activity(), false),
            final(self)@ == (DecoderRecord {
                written: old(self)@.written.push(false),
                ..old(self)@
            }),
            final(self).is_same(old(self)),
    {
        self.active.write(false);
    }

    /// Never called: a decoder that pulls frames gets none submitted.
    fn submit_decode_unit(&mut self, unit: VideoDecodeUnit) -> DecodeResult {
        DecodeResult::default()
    }

    fn supported_formats(&self) -> (r: VideoFormats)
        ensures
            r == self.formats(),
    {
        self.supported_formats
    }

    fn capabilities(&self) -> (r: VideoCapabilities)
        ensures
            r == (VideoCapabilities { pull_renderer: true, ..video::no_capabilities() }),
    {
        VideoCapabilities { pull_renderer: true, ..VideoCapabilities::default() }
    }
}

/// Why a pull gave nothing.
#[derive(Debug, Clone, Copy, PartialEq, Eq, Structural)]
pub enum VideoPullResult {
    ValueNotPresent,
    NotActive,
    CannotFinishSetup,
    SetupSuccessAlreadySent,
}

/// The message of a [`VideoPullResult`].
pub open spec fn pull_result_text(result: VideoPullResult) -> Seq<char> {
    match result {
        VideoPullResult::ValueNotPresent => "no video decode unit present"@,
        VideoPullResult::NotActive => "this video renderer is not active"@,
        VideoPullResult::CannotFinishSetup => "cannot finish the video renderer setup"@,
        VideoPullResult::SetupSuccessAlreadySent => "the setup success was already sent"@,
    }
}

impl VideoPullResult {
    /// The result in words.
    pub fn message(&self) -> (r: &'static str)
        ensures
            r@ == pull_result_text(*self),
    {
        match self {
            VideoPullResult::ValueNotPresent => "no video decode unit present",
            VideoPullResult::NotActive => "this video renderer is not active",
            VideoPullResult::CannotFinishSetup => "cannot finish the video renderer setup",
            VideoPullResult::SetupSuccessAlreadySent => "the setup success was already sent",
        }
    }
}

/// A frame as it was pulled out of the C library.
pub struct PulledFrame<'a> {
    /// What the C library knows the frame by.
    pub frame_handle: usize,
    pub decode_unit: RawDecodeUnit<'a>,
    /// The clock of the C library when the frame was pulled, in microseconds.
    pub now_us: u64,
}

/// The half of a pulling decoder that stays with whoever pulls frames.
pub struct PullVideoManager {
    setup_receiver: Inlet<VideoSetup>,
    setup: Option<VideoSetup>,
    setup_code_sender: Outlet<i32>,
    active: FlagReader,
}

/// What a manager knows, and what it did with the ends that it shares with its decoder.
#[verifier::ext_equal]
pub struct ManagerRecord {
    /// The setup that came last, if one did.
    pub received: Option<VideoSetup>,
    /// The setups that it took.
    pub taken: Seq<VideoSetup>,
    /// The answers that it sent and that were accepted.
    pub sent: Seq<i32>,
    /// Whether the setup is still to be answered.
    pub owes_answer: bool,
}

impl View for PullVideoManager {
    type V = ManagerRecord;

    closed spec fn view(&self) -> ManagerRecord {
        ManagerRecord {
            received: self.setup,
            taken: self.setup_receiver.taken(),
            sent: self.setup_code_sender.sent(),
            owes_answer: self.setup_code_sender.end() is Some,
        }
    }
}

impl ManagerRecord {
    /// An answer is owed until one was accepted, and no second one ever is.
    pub open spec fn answers_once(self) -> bool {
        self.sent.len() == (if self.owes_answer {
            0int
        } else {
            1
        })
    }
}

/// What is said of the stream, given whether it runs.
pub open spec fn activity_answer(active: bool) -> Result<(), VideoPullResult> {
    if active {
        Ok(())
    } else {
        Err(VideoPullResult::NotActive)
    }
}

/// How taking a setup goes, when that one came out of the channel or none did.
pub open spec fn took_setup(
    before: ManagerRecord,
    came: Option<VideoSetup>,
    after: ManagerRecord,
    outcome: Result<VideoSetup, VideoPullResult>,
) -> bool {
    match came {
        Some(setup) => {
            &&& outcome == Ok::<VideoSetup, VideoPullResult>(setup)
            &&& after == (ManagerRecord {
                received: Some(setup),
                taken: before.taken.push(setup),
                ..before
            })
        },
        None => {
            &&& outcome == Err::<VideoSetup, VideoPullResult>(VideoPullResult::NotActive)
            &&& after == before
        },
    }
}

/// How waiting for a setup goes: one that is there already is given back, and nothing is taken.
pub open spec fn waited(
    before: ManagerRecord,
    came: Option<VideoSetup>,
    after: ManagerRecord,
    outcome: Result<VideoSetup, VideoPullResult>,
) -> bool {
    match before.received {
        Some(setup) => outcome == Ok::<VideoSetup, VideoPullResult>(setup) && after == before,
        None => took_setup(before, came, after, outcome),
    }
}

/// How answering goes, when the answer would be accepted or not. Nothing is sent where no answer
/// is owed, and one that is not accepted is still owed.
pub open spec fn answered(
    before: ManagerRecord,
    code: i32,
    accepted: bool,
    after: ManagerRecord,
    outcome: Result<(), VideoPullResult>,
) -> bool {
    if !before.owes_answer {
        &&& outcome == Err::<(), VideoPullResult>(VideoPullResult::SetupSuccessAlreadySent)
        &&& after == before
    } else if accepted {
        &&& outcome == Ok::<(), VideoPullResult>(())
        &&& after == (ManagerRecord {
            sent: before.sent.push(code),
            owes_answer: false,
            ..before
        })
    } else {
        &&& outcome == Err::<(), VideoPullResult>(VideoPullResult::CannotFinishSetup)
        &&& after == before
    }
}

impl PullVideoManager {
    /// Where setups come from.
    pub closed spec fn setup_end(&self) -> Receiver<VideoSetup> {
        self.setup_receiver.end()
    }

    /// Where the answer goes to, while it is owed.
    pub closed spec fn answer_end(&self) -> Option<Sender<i32>> {
        self.setup_code_sender.end()
    }

    /// The flag that says whether the stream runs.
    pub closed spec fn activity(&self) -> Arc<AtomicBool> {
        self.active.flag()
    }

    /// The two halves of a pulling decoder. A channel for the setup and one for the answer
    /// join them, and they share the flag that says whether the stream runs: not yet. Nothing
    /// was sent, taken or written so far.
    pub fn new(supported_formats: VideoFormats) -> (r: (PullVideoDecoder, PullVideoManager))
        ensures
            r.0.formats() == supported_formats,
            r.0@ == (DecoderRecord { sent: seq![], taken: seq![], written: seq![] }),
            r.1@ == (ManagerRecord {
                received: None,
                taken: seq![],
                sent: seq![],
                owes_answer: true,
            }),
            r.0.setup_end() matches Some(sender) && channel::is_channel(sender, r.1.setup_end()),
            r.1.answer_end() matches Some(sender) && channel::is_channel(
                sender,
                r.0.answer_end(),
            ),
            r.0.activity() == r.1.activity(),
            channel::is_lowered_flag(r.0.activity()),
    {
        let (raise, look) = shared_flag();
        let (setup_sender, setup_receiver) = connected();
        let (setup_code_sender, setup_code_receiver) = connected();
        (
            PullVideoDecoder { active: raise, setup_sender, setup_code_receiver, supported_formats },
            PullVideoManager { active: look, setup_receiver, setup: None, setup_code_sender },
        )
    }

    /// Frames can only be pulled while the stream runs.
    pub fn require_active(active: bool) -> (r: Result<(), VideoPullResult>)
        ensures
            r == activity_answer(active),
    {
        if active {
            Ok(())
        } else {
            Err(VideoPullResult::NotActive)
        }
    }

    /// Whether the stream runs at this moment.
    pub fn check_active(&self) -> (r: Result<(), VideoPullResult>)
        ensures
            channel::may_read(self.activity(), r is Ok),
            r == activity_answer(r is Ok),
    {
        PullVideoManager::require_active(self.active.read())
    }

    /// Keeps a setup that came out of the channel, if one did.
    pub fn record_setup(&mut self, received: Option<VideoSetup>) -> (r: Result<
        VideoSetup,
        VideoPullResult,
    >)
        ensures
            match received {
                Some(setup) => r == Ok::<VideoSetup, VideoPullResult>(setup) && final(self)@ == (
                ManagerRecord { received: Some(setup), ..old(self)@ }),
                None => r == Err::<VideoSetup, VideoPullResult>(VideoPullResult::NotActive)
                    && final(self)@ == old(self)@,
            },
            final(self).setup_end() == old(self).setup_end(),
            final(self).answer_end() == old(self).answer_end(),
            final(self).activity() == old(self).activity(),
    {
        match received {
            Some(setup) => {
                self.setup = Some(setup);
                Ok(setup)
            },
            None => Err(VideoPullResult::NotActive),
        }
    }

    /// Looks for a setup without waiting.
    ///
    /// Note: Send setup result must be called after a successful pull
    pub fn poll_setup(&mut self) -> (r: Result<VideoSetup, VideoPullResult>)
        ensures
            exists|came: Option<VideoSetup>|
                channel::may_find(old(self).setup_end(), came) && #[trigger] took_setup(
                    old(self)@,
                    came,
                    final(self)@,
                    r,
                ),
            final(self).setup_end() == old(self).setup_end(),
            final(self).answer_end() == old(self).answer_end(),
            final(self).activity() == old(self).activity(),
    {
        let came = self.setup_receiver.look();
        let outcome = self.record_setup(came);
        assert(took_setup(old(self)@, came, self@, outcome));
        outcome
    }

    /// Waits for a setup. One that is there already is given back at once, and nothing is
    /// taken out of the channel then.
    ///
    /// Note: Send setup result must be called after this
    pub fn wait_for_setup(&mut self) -> (r: Result<VideoSetup, VideoPullResult>)
        ensures
            exists|came: Option<VideoSetup>|
                {
                    &&& old(self)@.received is None ==> channel::may_receive(
                        old(self).setup_end(),
                        came,
                    )
                    &&& #[trigger] waited(old(self)@, came, final(self)@, r)
                },
            final(self).setup_end() == old(self).setup_end(),
            final(self).answer_end() == old(self).answer_end(),
            final(self).activity() == old(self).activity(),
    {
        if let Some(setup) = self.setup {
            assert(waited(old(self)@, None, self@, Ok(setup)));
            return Ok(setup);
        }
        let came = self.setup_receiver.receive();
        let outcome = self.record_setup(came);
        assert(waited(old(self)@, came, self@, outcome));
        outcome
    }

    /// Ends an attempt to answer: an answer that was not accepted is still owed.
    pub fn conclude_answer(&mut self, accepted: bool) -> (r: Result<(), VideoPullResult>)
        ensures
            accepted ==> r == Ok::<(), VideoPullResult>(()) && final(self)@ == (ManagerRecord {
                owes_answer: false,
                ..old(self)@
            }) && final(self).answer_end() is None,
            !accepted ==> r == Err::<(), VideoPullResult>(VideoPullResult::CannotFinishSetup)
                && final(self)@ == old(self)@ && final(self).answer_end() == old(
                self,
            ).answer_end(),
            final(self).setup_end() == old(self).setup_end(),
            final(self).activity() == old(self).activity(),
    {
        if accepted {
            self.setup_code_sender.close();
            Ok(())
        } else {
            Err(VideoPullResult::CannotFinishSetup)
        }
    }

    /// Answers the setup. Only one answer can be accepted.
    pub fn send_setup_result(&mut self, code: i32) -> (r: Result<(), VideoPullResult>)
        ensures
            exists|accepted: bool|
                {
                    &&& old(self).answer_end() matches Some(sender) ==> channel::may_send(
                        sender,
                        code,
                        accepted,
                    )
                    &&& #[trigger] answered(old(self)@, code, accepted, final(self)@, r)
                },
            final(self)@.owes_answer ==> final(self).answer_end() == old(self).answer_end(),
            final(self)@.owes_answer == final(self).answer_end() is Some,
            final(self).setup_end() == old(self).setup_end(),
            final(self).activity() == old(self).activity(),
    {
        if !self.setup_code_sender.is_open() {
            let refused = Err(VideoPullResult::SetupSuccessAlreadySent);
            assert(answered(old(self)@, code, false, self@, refused));
            return refused;
        }
        let accepted = self.setup_code_sender.send(code);
        let outcome = self.conclude_answer(accepted);
        assert(answered(old(self)@, code, accepted, self@, outcome));
        outcome
    }

    /// Looks for the next frame without waiting, by `poll`, which asks the C library. It is asked
    /// only where the stream runs: a frame that was handed out has to be completed.
    pub fn poll_next_video_frame<'a, F: FnOnce() -> Option<PulledFrame<'a>>>(
        &'a mut self,
        poll: F,
    ) -> (r: Result<PullVideoDecodeUnit<'a>, VideoPullResult>)
        requires
            channel::may_read(old(self).activity(), true) ==> poll.requires(()),
            forall|frame: PulledFrame<'a>| #[trigger]
                poll.ensures((), Some(frame)) ==> frame.decode_unit.valid(),
        ensures
            pull_outcome(old(self).activity(), poll, r),
            *final(self) == *old(self),
    {
        match self.check_active() {
            Ok(()) => PullVideoManager::pulled_frame(poll()),
            Err(result) => Err(result),
        }
    }

    /// Waits for the next frame, by `wait`, which asks the C library. It is asked only where the
    /// stream runs: no frame comes otherwise.
    pub fn wait_for_next_video_frame<'a, F: FnOnce() -> Option<PulledFrame<'a>>>(
        &'a mut self,
        wait: F,
    ) -> (r: Result<PullVideoDecodeUnit<'a>, VideoPullResult>)
        requires
            channel::may_read(old(self).activity(), true) ==> wait.requires(()),
            forall|frame: PulledFrame<'a>| #[trigger]
                wait.ensures((), Some(frame)) ==> frame.decode_unit.valid(),
        ensures
            pull_outcome(old(self).activity(), wait, r),
            *final(self) == *old(self),
    {
        match self.check_active() {
            Ok(()) => PullVideoManager::pulled_frame(wait()),
            Err(result) => Err(result),
        }
    }

    /// What a pull gives, when the C library had that frame or none.
    pub fn pulled_frame<'a>(frame: Option<PulledFrame<'a>>) -> (r: Result<
        PullVideoDecodeUnit<'a>,
        VideoPullResult,
    >)
        requires
            frame matches Some(pulled) ==> pulled.decode_unit.valid(),
        ensures
            match frame {
                Some(pulled) => r matches Ok(unit) && unit.is_of(pulled),
                None => r == Err::<PullVideoDecodeUnit<'a>, VideoPullResult>(
                    VideoPullResult::ValueNotPresent,
                ),
            },
    {
        match frame {
            Some(pulled) => Ok(PullVideoManager::handle_next_video_frame(pulled)),
            None => Err(VideoPullResult::ValueNotPresent),
        }
    }

    fn handle_next_video_frame<'a>(frame: PulledFrame<'a>) -> (r: PullVideoDecodeUnit<'a>)
        requires
            frame.decode_unit.valid(),
        ensures
            r.is_of(frame),
    {
        PullVideoDecodeUnit {
            frame_handle: frame.frame_handle,
            result: DecodeResult::default(),
            decode_unit: convert_decode_unit(&frame.decode_unit, frame.now_us),
        }
    }
}

/// What pulling a frame by `pull` can give. While the flag stands: the frame that `pull` gave,
/// or word that it gave none. Otherwise: word that the stream does not run.
pub open spec fn pull_outcome<'a, F: FnOnce() -> Option<PulledFrame<'a>>>(
    flag: Arc<AtomicBool>,
    pull: F,
    outcome: Result<PullVideoDecodeUnit<'a>, VideoPullResult>,
) -> bool {
    match outcome {
        Ok(unit) => channel::may_read(flag, true) && exists|frame: PulledFrame<'a>| #[trigger]
            pull.ensures((), Some(frame)) && unit.is_of(frame),
        Err(VideoPullResult::ValueNotPresent) => channel::may_read(flag, true) && pull.ensures((), None),
        Err(result) => channel::may_read(flag, false) && result == VideoPullResult::NotActive,
    }
}

/// The setups, or answers, that were sent and not yet taken out, the oldest first.
pub open spec fn waiting<T>(sent: Seq<T>, taken: Seq<T>) -> Seq<T> {
    sent.skip(taken.len() as int)
}

/// A poll takes the setup that waits longest, and that one only; a wait behind it gives the
/// same one. Where none waits, as with two fresh halves, the poll says so and changes nothing.
/// `sent` is what the decoder sent: what was taken is the beginning of it, and a look finds
/// what waits longest.
pub proof fn lemma_poll_takes_the_oldest(
    sent: Seq<VideoSetup>,
    before: ManagerRecord,
    came: Option<VideoSetup>,
    after: ManagerRecord,
    outcome: Result<VideoSetup, VideoPullResult>,
)
    requires
        before.taken.is_prefix_of(sent),
        match came {
            Some(setup) => waiting(sent, before.taken).len() > 0 && setup == waiting(
                sent,
                before.taken,
            )[0],
            None => waiting(sent, before.taken).len() == 0,
        },
        took_setup(before, came, after, outcome),
    ensures
        waiting(sent, before.taken).len() == 0 ==> outcome == Err::<VideoSetup, VideoPullResult>(
            VideoPullResult::NotActive,
        ) && after == before,
        waiting(sent, before.taken).len() > 0 ==> {
            &&& outcome == Ok::<VideoSetup, VideoPullResult>(waiting(sent, before.taken)[0])
            &&& after.received == Some(waiting(sent, before.taken)[0])
            &&& waiting(sent, after.taken) == waiting(sent, before.taken).skip(1)
            &&& after.taken.is_prefix_of(sent)
        },
{
    if came is Some {
        assert(waiting(sent, after.taken) =~= waiting(sent, before.taken).skip(1));
        assert(after.taken =~= sent.take(after.taken.len() as int));
    }
}

/// A setup that was polled or waited for is given back by every later wait, which takes
/// nothing, whatever waits in the channel and whether the decoder is still there.
pub proof fn lemma_setup_is_remembered(
    before: ManagerRecord,
    came: Option<VideoSetup>,
    after: ManagerRecord,
    setup: VideoSetup,
    later: Option<VideoSetup>,
    end: ManagerRecord,
    outcome: Result<VideoSetup, VideoPullResult>,
)
    requires
        took_setup(before, came, after, Ok(setup)) || waited(before, came, after, Ok(setup)),
        waited(after, later, end, outcome),
    ensures
        outcome == Ok::<VideoSetup, VideoPullResult>(setup),
        end == after,
{
}

/// At most one answer is ever accepted. It is the one that was given, and after
/// it every other one is refused and sent nowhere, whether or not the decoder is still there.
pub proof fn lemma_one_answer(
    before: ManagerRecord,
    code: i32,
    accepted: bool,
    after: ManagerRecord,
    outcome: Result<(), VideoPullResult>,
    other: i32,
    accepts: bool,
    end: ManagerRecord,
    refusal: Result<(), VideoPullResult>,
)
    requires
        before.answers_once(),
        answered(before, code, accepted, after, outcome),
        answered(after, other, accepts, end, refusal),
    ensures
        after.answers_once(),
        end.answers_once(),
        before.owes_answer && accepted ==> outcome is Ok && after.sent == seq![code],
        !before.owes_answer || accepted ==> refusal == Err::<(), VideoPullResult>(
            VideoPullResult::SetupSuccessAlreadySent,
        ) && end == after,
{
}

/// A number of attempts to answer, one after the other: `records` holds what the manager knew
/// before each of them and after the last.
pub open spec fn answered_in_turn(
    records: Seq<ManagerRecord>,
    codes: Seq<i32>,
    accepted: Seq<bool>,
    outcomes: Seq<Result<(), VideoPullResult>>,
) -> bool {
    &&& records.len() == codes.len() + 1
    &&& accepted.len() == codes.len()
    &&& outcomes.len() == codes.len()
    &&& forall|i: int|
        0 <= i < codes.len() ==> #[trigger] answered(
            records[i],
            codes[i],
            accepted[i],
            records[i + 1],
            outcomes[i],
        )
}

proof fn lemma_record_stays(
    records: Seq<ManagerRecord>,
    codes: Seq<i32>,
    accepted: Seq<bool>,
    outcomes: Seq<Result<(), VideoPullResult>>,
    from: int,
    i: int,
)
    requires
        answered_in_turn(records, codes, accepted, outcomes),
        0 <= from <= i <= codes.len(),
        !records[from].owes_answer || forall|j: int| from <= j < codes.len() ==> !#[trigger] accepted[j],
    ensures
        records[i] == records[from],
    decreases i - from,
{
    if i > from {
        lemma_record_stays(records, codes, accepted, outcomes, from, i - 1);
        assert(answered(
            records[i - 1],
            codes[i - 1],
            accepted[i - 1],
            records[i - 1 + 1],
            outcomes[i - 1],
        ));
    }
}

/// However often an answer is given, the one that is accepted first is the only one.
/// Those before it are still owed, and every later one is refused and sent nowhere, whether or
/// not the decoder is still there. Where the decoder lives, that is the very first
/// one.
pub proof fn lemma_only_the_first_answer_counts(
    records: Seq<ManagerRecord>,
    codes: Seq<i32>,
    accepted: Seq<bool>,
    outcomes: Seq<Result<(), VideoPullResult>>,
    first: int,
)
    requires
        answered_in_turn(records, codes, accepted, outcomes),
        records[0].answers_once(),
        records[0].owes_answer,
        0 <= first < codes.len(),
        accepted[first],
        forall|j: int| 0 <= j < first ==> !#[trigger] accepted[j],
    ensures
        outcomes[first] == Ok::<(), VideoPullResult>(()),
        forall|j: int|
            0 <= j < first ==> #[trigger] outcomes[j] == Err::<(), VideoPullResult>(
                VideoPullResult::CannotFinishSetup,
            ),
        forall|j: int|
            first < j < codes.len() ==> #[trigger] outcomes[j] == Err::<(), VideoPullResult>(
                VideoPullResult::SetupSuccessAlreadySent,
            ),
        records.last().sent == seq![codes[first]],
{
    let before = codes.take(first);
    assert(answered_in_turn(
        records.take(first + 1),
        before,
        accepted.take(first),
        outcomes.take(first),
    )) by {
        assert forall|i: int| 0 <= i < first implies #[trigger] answered(
            records.take(first + 1)[i],
            before[i],
            accepted.take(first)[i],
            records.take(first + 1)[i + 1],
            outcomes.take(first)[i],
        ) by {
            assert(answered(records[i], codes[i], accepted[i], records[i + 1], outcomes[i]));
        }
    }
    assert forall|j: int| 0 <= j <= first implies #[trigger] records[j] == records[0] by {
        lemma_record_stays(
            records.take(first + 1),
            before,
            accepted.take(first),
            outcomes.take(first),
            0,
            j,
        );
    }
    assert(answered(
        records[first],
        codes[first],
        accepted[first],
        records[first + 1],
        outcomes[first],
    ));
    assert forall|j: int| 0 <= j < first implies #[trigger] outcomes[j] == Err::<
        (),
        VideoPullResult,
    >(VideoPullResult::CannotFinishSetup) by {
        assert(answered(records[j], codes[j], accepted[j], records[j + 1], outcomes[j]));
    }
    assert forall|j: int| first < j < codes.len() implies #[trigger] outcomes[j] == Err::<
        (),
        VideoPullResult,
    >(VideoPullResult::SetupSuccessAlreadySent) by {
        lemma_record_stays(records, codes, accepted, outcomes, first + 1, j);
        assert(answered(records[j], codes[j], accepted[j], records[j + 1], outcomes[j]));
    }
    lemma_record_stays(records, codes, accepted, outcomes, first + 1, codes.len() as int);
    assert(records.last().sent =~= seq![codes[first]]);
}

/// An answer that is not accepted, as none is once the decoder is gone, is owed as before:
/// each attempt says so again, and none is taken for a second answer.
pub proof fn lemma_undelivered_answers_stay_owed(
    records: Seq<ManagerRecord>,
    codes: Seq<i32>,
    accepted: Seq<bool>,
    outcomes: Seq<Result<(), VideoPullResult>>,
)
    requires
        answered_in_turn(records, codes, accepted, outcomes),
        records[0].owes_answer,
        forall|j: int| 0 <= j < codes.len() ==> !#[trigger] accepted[j],
    ensures
        forall|j: int|
            0 <= j < codes.len() ==> #[trigger] outcomes[j] == Err::<(), VideoPullResult>(
                VideoPullResult::CannotFinishSetup,
            ),
        forall|j: int| 0 <= j < records.len() ==> #[trigger] records[j] == records[0],
{
    assert forall|j: int| 0 <= j < records.len() implies #[trigger] records[j] == records[0] by {
        lemma_record_stays(records, codes, accepted, outcomes, 0, j);
    }
    assert forall|j: int| 0 <= j < codes.len() implies #[trigger] outcomes[j] == Err::<
        (),
        VideoPullResult,
    >(VideoPullResult::CannotFinishSetup) by {
        assert(answered(records[j], codes[j], accepted[j], records[j + 1], outcomes[j]));
    }
}

/// Nothing but an answer changes what was answered.
pub proof fn lemma_setups_leave_answers(
    before: ManagerRecord,
    came: Option<VideoSetup>,
    after: ManagerRecord,
    outcome: Result<VideoSetup, VideoPullResult>,
)
    requires
        took_setup(before, came, after, outcome) || waited(before, came, after, outcome),
    ensures
        after.sent == before.sent,
        after.owes_answer == before.owes_answer,
        before.answers_once() ==> after.answers_once(),
{
}

/// The reply to a setup is the one answer of the manager, and there is one reply at most. A
/// setup that is not accepted, or whose answer was taken by an earlier one, ends in an error.
/// What the decoder took is the beginning of what the manager sent.
pub proof fn lemma_reply_is_the_answer(
    manager: ManagerRecord,
    before: DecoderRecord,
    setup: VideoSetup,
    accepted: bool,
    reply: Option<i32>,
    after: DecoderRecord,
    code: i32,
)
    requires
        manager.answers_once(),
        after.taken.is_prefix_of(manager.sent),
        set_up(before, setup, accepted, reply, after, code),
    ensures
        accepted ==> after.sent == before.sent.push(setup),
        !accepted ==> code == ML_PULL_RENDERER_ERROR && after == before,
        accepted && reply is Some ==> !manager.owes_answer && manager.sent == seq![code]
            && before.taken.len() == 0,
        before.taken.len() > 0 || manager.owes_answer ==> code == ML_PULL_RENDERER_ERROR,
        after.written == before.written,
{
    if accepted && reply is Some {
        assert(after.taken.last() == code);
        assert(after.taken[0] == manager.sent[0]);
        assert(manager.sent =~= seq![code]);
    }
}

/// The manager sees the stream run exactly where the decoder was started and not stopped
/// since. `value` is what it reads: what the decoder wrote last, or `false` where that wrote
/// nothing.
pub proof fn lemma_activity_follows_the_decoder(decoder: DecoderRecord, value: bool)
    requires
        value == channel::raised(decoder.written),
    ensures
        activity_answer(value) is Ok <==> decoder.written.len() > 0 && decoder.written.last(),
        activity_answer(value) is Err ==> activity_answer(value) == Err::<(), VideoPullResult>(
            VideoPullResult::NotActive,
        ),
{
}

/// A frame that was pulled and is to be reported back once it is decoded.
pub struct PullVideoDecodeUnit<'a> {
    frame_handle: usize,
    decode_unit: VideoDecodeUnit<'a>,
    result: DecodeResult,
}

impl<'a> PullVideoDecodeUnit<'a> {
    /// What the C library knows the frame by.
    pub closed spec fn handle(&self) -> usize {
        self.frame_handle
    }

    /// The frame.
    pub closed spec fn unit(&self) -> VideoDecodeUnit<'a> {
        self.decode_unit
    }

    /// What will be reported back.
    pub closed spec fn outcome(&self) -> DecodeResult {
        self.result
    }

    /// Whether this is the frame that was pulled, with nothing reported about it yet.
    pub open spec fn is_of(&self, frame: PulledFrame<'a>) -> bool {
        &&& self.handle() == frame.frame_handle
        &&& c_video::converted(frame.decode_unit, frame.now_us, self.unit())
        &&& self.outcome() == DecodeResult::Decoded
    }

    /// Sets what will be reported back. Nothing is reported by that.
    pub fn set_result(&mut self, result: DecodeResult)
        ensures
            was_set(*old(self), result, *final(self)),
    {
        self.result = result;
    }

    /// What the C library is told once the frame is done with: which frame, and the number of
    /// the result. The frame is used up by that, so that it is told once at most.
    pub fn completion(self) -> (r: (usize, i32))
        ensures
            r == completion_of(self),
    {
        (self.frame_handle, self.result.raw())
    }
}

/// What setting a result does to a frame.
pub open spec fn was_set<'a>(
    before: PullVideoDecodeUnit<'a>,
    result: DecodeResult,
    after: PullVideoDecodeUnit<'a>,
) -> bool {
    &&& after.outcome() == result
    &&& after.handle() == before.handle()
    &&& after.unit() == before.unit()
}

/// What the C library is told of a frame that is done with.
pub open spec fn completion_of(unit: PullVideoDecodeUnit) -> (usize, i32) {
    (unit.handle(), unit.outcome().code())
}

/// A frame is completed under the handle that it was pulled with, with the result that was set
/// last, or as decoded where none was set. `units` is the frame before each of the results was
/// set, and after the last.
pub proof fn lemma_last_result_is_reported<'a>(
    frame: PulledFrame<'a>,
    units: Seq<PullVideoDecodeUnit<'a>>,
    results: Seq<DecodeResult>,
)
    requires
        units.len() == results.len() + 1,
        units[0].is_of(frame),
        forall|i: int|
            0 <= i < results.len() ==> #[trigger] was_set(units[i], results[i], units[i + 1]),
    ensures
        completion_of(units.last()) == (
            frame.frame_handle,
            (if results.len() == 0 {
                DecodeResult::Decoded
            } else {
                results.last()
            }).code(),
        ),
        units.last().unit() == units[0].unit(),
    decreases results.len(),
{
    if results.len() > 0 {
        let last = results.len() - 1;
        let earlier = units.drop_last();
        assert forall|i: int| 0 <= i < results.drop_last().len() implies #[trigger] was_set(
            earlier[i],
            results.drop_last()[i],
            earlier[i + 1],
        ) by {
            assert(was_set(units[i], results[i], units[i + 1]));
        }
        lemma_last_result_is_reported(frame, earlier, results.drop_last());
        assert(was_set(units[last], results[last], units[last + 1]));
        assert(earlier.last() == units[last]);
    }
}

impl<'a> Deref for PullVideoDecodeUnit<'a> {
    type Target = VideoDecodeUnit<'a>;

    fn deref(&self) -> (r: &VideoDecodeUnit<'a>)
        ensures
            *r == self.unit(),
    {
        &self.decode_unit
    }
}

/// The C library is answered with the code that came back for an accepted setup, whatever code
/// that is, and with -100001 where none came or the setup was not accepted. The setup itself is
/// sent as it is.
pub proof fn lemma_setup_answers(
    before: DecoderRecord,
    setup: VideoSetup,
    accepted: bool,
    reply: Option<i32>,
    after: DecoderRecord,
    code: i32,
)
    requires
        set_up(before, setup, accepted, reply, after, code),
    ensures
        reply_code(reply) == (if reply is Some {
            reply->0
        } else {
            -100001i32
        }),
        accepted && reply is Some ==> code == reply->0 && after.taken == before.taken.push(code),
        accepted && reply is None ==> code == -100001 && after.taken == before.taken,
        accepted ==> after.sent == before.sent.push(setup),
        !accepted ==> code == -100001 && after.sent == before.sent && after.taken == before.taken,
        after.written == before.written,
{
}

/// A wait without a remembered setup takes the setup that waits longest, and that one only, or
/// says that the stream does not run where the decoder is gone and nothing waits.
pub proof fn lemma_wait_takes_the_oldest(
    sent: Seq<VideoSetup>,
    before: ManagerRecord,
    came: Option<VideoSetup>,
    after: ManagerRecord,
    outcome: Result<VideoSetup, VideoPullResult>,
)
    requires
        before.received is None,
        before.taken.is_prefix_of(sent),
        match came {
            Some(setup) => waiting(sent, before.taken).len() > 0 && setup == waiting(
                sent,
                before.taken,
            )[0],
            None => waiting(sent, before.taken).len() == 0,
        },
        waited(before, came, after, outcome),
    ensures
        waiting(sent, before.taken).len() == 0 ==> outcome == Err::<VideoSetup, VideoPullResult>(
            VideoPullResult::NotActive,
        ) && after == before,
        waiting(sent, before.taken).len() > 0 ==> {
            &&& outcome == Ok::<VideoSetup, VideoPullResult>(sent[before.taken.len() as int])
            &&& after.received == Some(sent[before.taken.len() as int])
            &&& waiting(sent, after.taken) == waiting(sent, before.taken).skip(1)
        },
        after.sent == before.sent,
        after.owes_answer == before.owes_answer,
{
    lemma_poll_takes_the_oldest(sent, before, came, after, outcome);
}

/// What waits is what was sent and not taken, in the order in which it was sent.
pub proof fn lemma_waiting<T>(sent: Seq<T>, taken: Seq<T>)
    requires
        taken.is_prefix_of(sent),
    ensures
        taken + waiting(sent, taken) == sent,
{
    assert(taken + waiting(sent, taken) =~= sent);
}

/// What a pull gives, case by case. While the flag stands it gives the frame that the C library
/// handed out, with its handle, or word that there is none; while the flag does not stand it
/// gives word of that, and of nothing else.
pub proof fn lemma_pull_cases<'a, F: FnOnce() -> Option<PulledFrame<'a>>>(
    flag: Arc<AtomicBool>,
    pull: F,
    frame: Option<PulledFrame<'a>>,
    outcome: Result<PullVideoDecodeUnit<'a>, VideoPullResult>,
)
    requires
        pull_outcome(flag, pull, outcome),
        forall|given: Option<PulledFrame<'a>>| #[trigger]
            pull.ensures((), given) ==> given == frame,
    ensures
        !channel::may_read(flag, true) ==> outcome == Err::<
            PullVideoDecodeUnit<'a>,
            VideoPullResult,
        >(VideoPullResult::NotActive),
        !channel::may_read(flag, false) && frame is None ==> outcome == Err::<
            PullVideoDecodeUnit<'a>,
            VideoPullResult,
        >(VideoPullResult::ValueNotPresent),
        !channel::may_read(flag, false) && frame is Some ==> outcome is Ok,
        outcome matches Ok(unit) ==> frame is Some && unit.handle() == (frame->0).frame_handle
            && unit.outcome() is Decoded && c_video::converted(
            (frame->0).decode_unit,
            (frame->0).now_us,
            unit.unit(),
        ),
{
}

/// Setting a result changes the result and nothing else of a frame, and the C library is told
/// 0 for a decoded frame and -1 where an IDR frame is needed, under the handle of the frame.
pub proof fn lemma_results_are_reported<'a>(
    before: PullVideoDecodeUnit<'a>,
    result: DecodeResult,
    after: PullVideoDecodeUnit<'a>,
)
    requires
        was_set(before, result, after),
    ensures
        completion_of(after).0 == before.handle(),
        result is Decoded ==> completion_of(after).1 == 0,
        result is NeedIdr ==> completion_of(after).1 == -1,
        after.unit() == before.unit(),
{
}

/// A decoder that is the same has the same formats, ends and flag.
pub proof fn lemma_same_decoder(one: PullVideoDecoder, other: PullVideoDecoder)
    ensures
        one.is_same(&other) ==> one.formats() == other.formats() && one.setup_end()
            == other.setup_end() && one.answer_end() == other.answer_end() && one.activity()
            == other.activity(),
{
}

} // verus!
