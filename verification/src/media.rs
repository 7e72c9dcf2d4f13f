//! Pictures of the phone: single ones, and the live view.

use vstd::prelude::*;

use crate::control::{
    mark_wda_read_path_unactionable, target_not_configured_reply, target_not_configured_response,
};
use crate::health::WdaHealth;
use crate::lifecycle::WdaLifecycleTransition;
use crate::reply::{opt_str, opt_text, plain_reply, texts, Reply, ReplyView};
use crate::scan::{split, split_on};
use crate::state::{AppState, AppView};
use crate::status::{refuse_stream_id, stream_id_refusal};
use crate::stream::{stream_id_valid, StreamGuard};
use crate::text::{join2, lowered, same_text, to_lower, trim, trimmed};

verus! {

pub open spec fn png_signature() -> Seq<u8> {
    seq![0x89u8, 0x50, 0x4e, 0x47, 0x0d, 0x0a, 0x1a, 0x0a]
}

/// Whether bytes can be a picture: they begin as one, and are long enough to
/// hold its size.
pub open spec fn png_valid(bytes: Seq<u8>) -> bool {
    bytes.len() >= 33 && bytes.take(8) == png_signature()
}

pub fn is_valid_png(bytes: &[u8]) -> (valid: bool)
    ensures
        valid == png_valid(bytes@),
{
    if bytes.len() < 33 {
        return false;
    }
    let begins = bytes[0] == 0x89 && bytes[1] == 0x50 && bytes[2] == 0x4e && bytes[3] == 0x47
        && bytes[4] == 0x0d && bytes[5] == 0x0a && bytes[6] == 0x1a && bytes[7] == 0x0a;
    proof {
        let p = png_signature();
        if begins {
            assert(bytes@.take(8) =~= p);
        } else if bytes@.take(8) == p {
            assert(bytes@[0] == p[0] && bytes@[1] == p[1] && bytes@[2] == p[2] && bytes@[3] == p[3]
                && bytes@[4] == p[4] && bytes@[5] == p[5] && bytes@[6] == p[6] && bytes@[7]
                == p[7]);
        }
    }
    begins
}

/// Whether a content type is that of a live view.
pub open spec fn mjpeg_type(value: Seq<char>) -> bool {
    lowered(trimmed(split_on(value, ';')[0])) == "multipart/x-mixed-replace"@
}

pub fn is_mjpeg_content_type(value: &str) -> (is: bool)
    ensures
        is == mjpeg_type(value@),
{
    let pieces = split(value, ';');
    assert(texts(pieces@)[0] == pieces@[0]@);
    let media = to_lower(trim(pieces[0].as_str()));
    same_text(media.as_str(), "multipart/x-mixed-replace")
}

/// The refusal while the phone is on its way out or in, or gone.
pub open spec fn away_reply() -> ReplyView {
    plain_reply(503, "direct device is released, releasing, or reconnecting"@)
}

pub open spec fn away(state: AppView) -> bool {
    state.lifecycle.phase != WdaLifecycleTransition::Active || state.released
}

/// How a picture is to be taken.
#[derive(Debug)]
pub enum ScreenshotPlan {
    Refused(Reply),
    /// By the runner on the phone.
    Direct,
    /// From the mirror's window.
    Mirror,
}

/// The refusal of a picture before anything is done for it.
pub open spec fn screenshot_refusal(state: AppView, direct: bool, pending: bool) -> Option<
    ReplyView,
> {
    if direct && pending {
        Some(target_not_configured_reply())
    } else if direct && away(state) {
        Some(away_reply())
    } else {
        None
    }
}

pub open spec fn no_runner_reply() -> ReplyView {
    plain_reply(503, "direct device screenshot unavailable (WDA is not configured)"@)
}

/// Decides how a picture is to be taken. Whoever asks for one looks at the
/// phone. One kind of picture never stands in for the other.
pub fn agent_screenshot(
    state: &mut AppState,
    direct: bool,
    pending: bool,
    has_runner: bool,
    now: u64,
) -> (plan: ScreenshotPlan)
    ensures
        match screenshot_refusal(old(state)@, direct, pending) {
            Some(reply) => {
                &&& plan matches ScreenshotPlan::Refused(refusal) && refusal@ == reply
                &&& final(state)@ == old(state)@
            },
            None => {
                &&& final(state)@ == (AppView { last_activity: now, ..old(state)@ })
                &&& if !direct {
                    plan is Mirror
                } else if has_runner {
                    plan is Direct
                } else {
                    plan matches ScreenshotPlan::Refused(refusal) && refusal@ == no_runner_reply()
                }
            },
        },
{
    if direct && pending {
        return ScreenshotPlan::Refused(target_not_configured_response());
    }
    if direct && (state.lifecycle.is_transitioning() || state.released) {
        return ScreenshotPlan::Refused(
            Reply::plain(503, "direct device is released, releasing, or reconnecting"),
        );
    }
    state.touch_activity(now);
    if !direct {
        return ScreenshotPlan::Mirror;
    }
    if !has_runner {
        return ScreenshotPlan::Refused(
            Reply::plain(503, "direct device screenshot unavailable (WDA is not configured)"),
        );
    }
    ScreenshotPlan::Direct
}

/// What became of a picture.
#[derive(Debug)]
pub enum Shot {
    Taken(Vec<u8>),
    Failed,
    TimedOut,
}

/// The refusal of a picture that the runner did not deliver.
pub open spec fn direct_shot_refusal(shot: Shot) -> Option<ReplyView> {
    match shot {
        Shot::Taken(bytes) => if png_valid(bytes@) {
            None
        } else {
            Some(plain_reply(502, "WDA returned an invalid PNG"@))
        },
        Shot::Failed => Some(plain_reply(502, "WDA screenshot failed"@)),
        Shot::TimedOut => Some(plain_reply(504, "WDA screenshot exceeded the server deadline"@)),
    }
}

/// Notes what became of a picture by the runner. One that was not delivered
/// shows that actions cannot be carried out either.
pub fn direct_screenshot_end(state: &mut AppState, shot: &Shot) -> (refusal: Option<Reply>)
    ensures
        match refusal {
            Some(reply) => {
                &&& direct_shot_refusal(*shot) == Some(reply@)
                &&& final(state)@ == (AppView {
                    health: WdaHealth { actionable: false, ..old(state)@.health },
                    actionable: false,
                    ..old(state)@
                })
            },
            None => {
                &&& direct_shot_refusal(*shot) is None
                &&& final(state)@ == old(state)@
            },
        },
{
    let refusal = match shot {
        Shot::Taken(bytes) => if is_valid_png(bytes.as_slice()) {
            return None;
        } else {
            Reply::plain(502, "WDA returned an invalid PNG")
        },
        Shot::Failed => Reply::plain(502, "WDA screenshot failed"),
        Shot::TimedOut => Reply::plain(504, "WDA screenshot exceeded the server deadline"),
    };
    mark_wda_read_path_unactionable(&mut state.health, &mut state.actionable);
    Some(refusal)
}

/// The refusal of a picture that the mirror did not deliver.
pub fn mirror_screenshot_end(shot: &Shot) -> (refusal: Option<Reply>)
    ensures
        match refusal {
            Some(reply) => {
                &&& !(shot matches Shot::Taken(bytes) && png_valid(bytes@))
                &&& reply@ == plain_reply(503, "no valid screenshot frame available"@)
            },
            None => shot matches Shot::Taken(bytes) && png_valid(bytes@),
        },
{
    let good = match shot {
        Shot::Taken(bytes) => is_valid_png(bytes.as_slice()),
        _ => false,
    };
    if good {
        None
    } else {
        Some(Reply::plain(503, "no valid screenshot frame available"))
    }
}

/// The refusal of a live view, if there is one.
pub open spec fn mjpeg_refusal(
    state: AppView,
    direct: bool,
    pending: bool,
    stream_id: Option<Seq<char>>,
    has_url: bool,
) -> Option<ReplyView> {
    if stream_id matches Some(id) && !stream_id_valid(id) {
        Some(stream_id_refusal())
    } else if !direct {
        Some(plain_reply(409, "WDA MJPEG is disabled for the Mirror backend"@))
    } else if pending {
        Some(target_not_configured_reply())
    } else if away(state) {
        Some(away_reply())
    } else if state.live_streams >= 4 {
        Some(plain_reply(429, "too many live viewers (maximum 4)"@))
    } else if !has_url {
        Some(plain_reply(503, "no WDA MJPEG configured"@))
    } else {
        None
    }
}

/// Whether opening a live view counts as looking at the phone, even where it is
/// then refused.
pub open spec fn mjpeg_touches(
    state: AppView,
    direct: bool,
    pending: bool,
    stream_id: Option<Seq<char>>,
) -> bool {
    (stream_id matches Some(id) ==> stream_id_valid(id)) && direct && !pending && !away(state)
}

/// Opens a live view: a place among at most four, which keeps the phone from
/// being released while it is held.
pub fn agent_mjpeg(
    state: &mut AppState,
    direct: bool,
    pending: bool,
    stream_id: Option<&str>,
    has_url: bool,
    now: u64,
) -> (opened: Result<StreamGuard, Reply>)
    ensures
        match opened {
            Ok(_) => {
                &&& mjpeg_refusal(old(state)@, direct, pending, opt_str(stream_id), has_url) is None
                &&& final(state)@ == (AppView {
                    last_activity: now,
                    live_streams: (old(state)@.live_streams + 1) as usize,
                    ..old(state)@
                })
            },
            Err(reply) => {
                &&& mjpeg_refusal(old(state)@, direct, pending, opt_str(stream_id), has_url)
                    == Some(reply@)
                &&& final(state)@ == (if mjpeg_touches(
                    old(state)@,
                    direct,
                    pending,
                    opt_str(stream_id),
                ) {
                    AppView { last_activity: now, ..old(state)@ }
                } else {
                    old(state)@
                })
            },
        },
{
    if let Some(reply) = refuse_stream_id(stream_id) {
        return Err(reply);
    }
    if !direct {
        return Err(Reply::plain(409, "WDA MJPEG is disabled for the Mirror backend"));
    }
    if pending {
        return Err(target_not_configured_response());
    }
    if state.lifecycle.is_transitioning() || state.released {
        return Err(Reply::plain(503, "direct device is released, releasing, or reconnecting"));
    }
    state.touch_activity(now);
    let guard = match StreamGuard::try_reserve(&mut state.live_streams, 4) {
        Some(guard) => guard,
        None => {
            return Err(Reply::plain(429, "too many live viewers (maximum 4)"));
        },
    };
    if !has_url {
        guard.release(&mut state.live_streams);
        return Err(Reply::plain(503, "no WDA MJPEG configured"));
    }
    Ok(guard)
}

/// What the runner answered to a request for its live view.
#[derive(Debug)]
pub enum Upstream {
    /// Nothing, in time.
    Late,
    Unreachable,
    /// Its status was no success, and reads so.
    Refused { status: String },
    Open { content_type: Option<String> },
}

/// The refusal that belongs to an answer of the runner; none where it sends a
/// live view.
pub open spec fn upstream_refusal(up: Upstream) -> Option<ReplyView> {
    match up {
        Upstream::Late => Some(
            plain_reply(504, "WDA MJPEG did not return response headers before the deadline"@),
        ),
        Upstream::Unreachable => Some(
            plain_reply(
                502,
                "WDA MJPEG unreachable — is the :9100 relay up? (restart WDA via mode=agent)"@,
            ),
        ),
        Upstream::Refused { status } => Some(plain_reply(502, "WDA MJPEG upstream "@ + status@)),
        Upstream::Open { content_type } => if opt_text(content_type) matches Some(value)
            && mjpeg_type(value) {
            None
        } else {
            Some(plain_reply(502, "WDA MJPEG upstream returned a non-MJPEG content type"@))
        },
    }
}

pub fn refuse_upstream(up: &Upstream) -> (refusal: Option<Reply>)
    ensures
        match refusal {
            Some(reply) => upstream_refusal(*up) == Some(reply@),
            None => upstream_refusal(*up) is None,
        },
{
    match up {
        Upstream::Late => Some(
            Reply::plain(504, "WDA MJPEG did not return response headers before the deadline"),
        ),
        Upstream::Unreachable => Some(
            Reply::plain(
                502,
                "WDA MJPEG unreachable — is the :9100 relay up? (restart WDA via mode=agent)",
            ),
        ),
        Upstream::Refused { status } => {
            let text = join2("WDA MJPEG upstream ", status.as_str());
            Some(Reply::plain(502, text.as_str()))
        },
        Upstream::Open { content_type } => {
            let live = match content_type {
                Some(value) => is_mjpeg_content_type(value.as_str()),
                None => false,
            };
            if live {
                None
            } else {
                Some(Reply::plain(502, "WDA MJPEG upstream returned a non-MJPEG content type"))
            }
        },
    }
}

/// What came of a live view.
#[derive(Clone, Copy, Debug, PartialEq, Eq, Structural)]
pub enum ChunkEvent {
    Chunk,
    Failed,
    Ended,
    /// Nothing for eight seconds.
    Idle,
}

/// What to do with it.
#[derive(Clone, Copy, Debug, PartialEq, Eq, Structural)]
pub enum ChunkStep {
    /// Hand it on; the view is alive.
    Forward,
    /// Hand the failure on, and then end.
    FailThenEnd,
    /// Report that the view went silent, and then end.
    TimeoutThenEnd,
    End,
}

/// What to do with what came of a live view; `failed` where it has failed
/// before.
pub fn mjpeg_stream_step(failed: bool, event: ChunkEvent) -> (step: ChunkStep)
    ensures
        step == (if failed {
            ChunkStep::End
        } else {
            match event {
                ChunkEvent::Chunk => ChunkStep::Forward,
                ChunkEvent::Failed => ChunkStep::FailThenEnd,
                ChunkEvent::Ended => ChunkStep::End,
                ChunkEvent::Idle => ChunkStep::TimeoutThenEnd,
            }
        }),
{
    if failed {
        return ChunkStep::End;
    }
    match event {
        ChunkEvent::Chunk => ChunkStep::Forward,
        ChunkEvent::Failed => ChunkStep::FailThenEnd,
        ChunkEvent::Ended => ChunkStep::End,
        ChunkEvent::Idle => ChunkStep::TimeoutThenEnd,
    }
}

/// Never more than four live views are open, and one that is refused takes no
/// place.
pub proof fn law_at_most_four_live_views(
    state: AppView,
    direct: bool,
    pending: bool,
    stream_id: Option<Seq<char>>,
    has_url: bool,
)
    ensures
        mjpeg_refusal(state, direct, pending, stream_id, has_url) is None ==> state.live_streams
            + 1 <= 4,
{
}

/// A picture counts as one where it begins as such a file does and is long enough
/// to be one.
pub proof fn law_a_picture_begins_as_one(bytes: Seq<u8>)
    ensures
        png_valid(bytes) <==> bytes.len() >= 33 && bytes[0] == 137 && bytes[1] == 80 && bytes[2]
            == 78 && bytes[3] == 71 && bytes[4] == 13 && bytes[5] == 10 && bytes[6] == 26
            && bytes[7] == 10,
{
    if bytes.len() >= 33 {
        let front = bytes.take(8);
        assert forall|i: int| 0 <= i < 8 implies #[trigger] front[i] == bytes[i] by {}
        let sig = png_signature();
        assert(sig[0] == 137 && sig[1] == 80 && sig[2] == 78 && sig[3] == 71 && sig[4] == 13
            && sig[5] == 10 && sig[6] == 26 && sig[7] == 10);
        if png_valid(bytes) {
            assert(front[0] == bytes[0] && front[1] == bytes[1] && front[2] == bytes[2] && front[3]
                == bytes[3] && front[4] == bytes[4] && front[5] == bytes[5] && front[6] == bytes[6]
                && front[7] == bytes[7]);
        }
        if bytes[0] == 137 && bytes[1] == 80 && bytes[2] == 78 && bytes[3] == 71 && bytes[4] == 13
            && bytes[5] == 10 && bytes[6] == 26 && bytes[7] == 10 {
            assert(front =~= sig);
        }
    }
}

/// A picture is taken of a phone that is reached directly only where it is chosen
/// and in use; what came back is shown only where it is a picture, and else the
/// way it failed is told.
pub proof fn law_a_picture_is_taken_of_a_phone_in_use(
    state: AppView,
    direct: bool,
    pending: bool,
    bytes: Vec<u8>,
)
    ensures
        screenshot_refusal(state, direct, pending) is None <==> !direct || (!pending
            && state.lifecycle.phase is Active && !state.released),
        direct && pending ==> screenshot_refusal(state, direct, pending) == Some(
            target_not_configured_reply(),
        ),
        direct && !pending && (state.lifecycle.phase !is Active || state.released)
            ==> screenshot_refusal(state, direct, pending) == Some(
            plain_reply(503, "direct device is released, releasing, or reconnecting"@),
        ),
        direct_shot_refusal(Shot::Taken(bytes)) is None <==> png_valid(bytes@),
        !png_valid(bytes@) ==> direct_shot_refusal(Shot::Taken(bytes)) == Some(
            plain_reply(502, "WDA returned an invalid PNG"@),
        ),
        direct_shot_refusal(Shot::Failed) == Some(plain_reply(502, "WDA screenshot failed"@)),
        direct_shot_refusal(Shot::TimedOut) == Some(
            plain_reply(504, "WDA screenshot exceeded the server deadline"@),
        ),
        no_runner_reply() == plain_reply(
            503,
            "direct device screenshot unavailable (WDA is not configured)"@,
        ),
{
}

/// A live view is opened only under a fit name, to a phone that is reached
/// directly, is chosen and in use, where fewer than four are open and there is
/// one to show; else what is missing is told, in this order.
pub proof fn law_a_live_view_is_opened_to_a_phone_in_use(
    state: AppView,
    direct: bool,
    pending: bool,
    stream_id: Option<Seq<char>>,
    has_url: bool,
)
    ensures
        ({
            let refusal = mjpeg_refusal(state, direct, pending, stream_id, has_url);
            let fit = stream_id is None || stream_id_valid(stream_id->0);
            let used = state.lifecycle.phase is Active && !state.released;
            &&& refusal is None <==> fit && direct && !pending && used && state.live_streams < 4
                && has_url
            &&& !fit ==> refusal == Some(stream_id_refusal())
            &&& fit && !direct ==> refusal == Some(
                plain_reply(409, "WDA MJPEG is disabled for the Mirror backend"@),
            )
            &&& fit && direct && pending ==> refusal == Some(target_not_configured_reply())
            &&& fit && direct && !pending && !used ==> refusal == Some(away_reply())
            &&& fit && direct && !pending && used && state.live_streams >= 4 ==> refusal == Some(
                plain_reply(429, "too many live viewers (maximum 4)"@),
            )
            &&& fit && direct && !pending && used && state.live_streams < 4 && !has_url
                ==> refusal == Some(plain_reply(503, "no WDA MJPEG configured"@))
            &&& mjpeg_touches(state, direct, pending, stream_id) <==> fit && direct && !pending
                && used
        }),
{
}

/// A live view is passed on only where it is one; else it is told whether it came
/// too late, could not be reached, was refused, or is something else.
pub proof fn law_only_a_live_view_is_passed_on(status: String, content_type: String)
    ensures
        upstream_refusal(Upstream::Late)->0.status == 504,
        upstream_refusal(Upstream::Unreachable)->0.status == 502,
        upstream_refusal(Upstream::Refused { status }) == Some(
            plain_reply(502, "WDA MJPEG upstream "@ + status@),
        ),
        upstream_refusal(Upstream::Open { content_type: None })->0.status == 502,
        upstream_refusal(Upstream::Open { content_type: Some(content_type) }) is None
            <==> mjpeg_type(content_type@),
        mjpeg_type(content_type@) <==> lowered(trimmed(split_on(content_type@, ';')[0]))
            == "multipart/x-mixed-replace"@,
{
}

/// A live view goes on with each piece that comes, and ends once it has failed:
/// after telling so where it broke off or fell silent.
pub proof fn law_a_live_view_ends_once_it_has_failed(event: ChunkEvent, step: ChunkStep)
    ensures
        call_ensures(mjpeg_stream_step, (true, event), step) ==> step is End,
        call_ensures(mjpeg_stream_step, (false, event), step) ==> {
            &&& event is Chunk <==> step is Forward
            &&& event is Failed <==> step is FailThenEnd
            &&& event is Idle <==> step is TimeoutThenEnd
            &&& event is Ended <==> step is End
        },
{
}

} // verus!
