//! The camera's settings and the exchanges that apply them.
use vstd::prelude::*;

use crate::error::{Errno, LENGTH_MISMATCH};
use crate::protocol::{
    FRAME_LEN, SETTINGS_UNIT, SETTINGS_SELECTOR, MAX_BLUR_LEVEL, CAMERA_EFFECT_OFF,
    CAMERA_EFFECT_BG, CAMERA_EFFECT_TRACK, CAMERA_HDR_OFF, CAMERA_HDR_ON, CAMERA_FACE_AE_OFF,
    CAMERA_FACE_AE_ON, CAMERA_ANGLE_65, CAMERA_ANGLE_78, CAMERA_ANGLE_85, CAMERA_BG_SOLID,
    CAMERA_BG_BITMAP, CAMERA_BG_BLUR, CAMERA_BG_BLUR_LEVEL, CAMERA_BUTTON_DEFAULT,
    CAMERA_BUTTON_ROTATE, CAMERA_NOISE_REDUCTION_OFF, CAMERA_NOISE_REDUCTION_ON,
    CAMERA_BG_SOLID_BLUE, CAMERA_BG_SOLID_GREEN, CAMERA_BG_SOLID_RED, CAMERA_BG_SOLID_BLACK,
    CAMERA_BG_SOLID_WHITE, CAMERA_AUTO_FRAME_GROUP, CAMERA_AUTO_FRAME_FACE,
    CAMERA_AUTO_FRAME_BODY, CAMERA_BG_BITMAP_N, CAMERA_SLEEP_S, frame, le_bytes, be_bytes,
    from_le, fill_frame, to_le_bytes, to_be_bytes, from_le_bytes,
};

verus! {

/// One exchange with the camera, as a command plans it.
#[derive(Debug, PartialEq, Eq)]
pub enum Step {
    /// Show what the camera reports about itself.
    Info,
    /// Read the current value of a control into a buffer of `len` bytes.
    Read { unit: u8, selector: u8, len: usize },
    /// Write `data` as the current value of a control.
    Write { unit: u8, selector: u8, data: Vec<u8> },
}

/// A `Step` as a mathematical value.
pub enum StepView {
    Info,
    Read { unit: u8, selector: u8, len: nat },
    Write { unit: u8, selector: u8, data: Seq<u8> },
}

impl DeepView for Step {
    type V = StepView;

    open spec fn deep_view(&self) -> StepView {
        match self {
            Step::Info => StepView::Info,
            Step::Read { unit, selector, len } => StepView::Read {
                unit: *unit,
                selector: *selector,
                len: *len as nat,
            },
            Step::Write { unit, selector, data } => StepView::Write {
                unit: *unit,
                selector: *selector,
                data: data@,
            },
        }
    }
}

impl Step {
    /// A copy of this step.
    pub fn duplicate(&self) -> (s: Step)
        ensures
            s.deep_view() == self.deep_view(),
    {
        match self {
            Step::Info => Step::Info,
            Step::Read { unit, selector, len } => Step::Read {
                unit: *unit,
                selector: *selector,
                len: *len,
            },
            Step::Write { unit, selector, data } => {
                let copy = data.clone();
                assert(copy@ =~= data@);
                Step::Write { unit: *unit, selector: *selector, data: copy }
            },
        }
    }
}

/// A setting of the camera that one settings frame makes.
#[derive(Clone, Copy, Debug, PartialEq, Eq, Structural)]
pub enum Setting {
    EffectOff,
    EffectBg,
    EffectTrack,
    HdrOff,
    HdrOn,
    FaceAeOff,
    FaceAeOn,
    Angle65,
    Angle78,
    Angle85,
    BgSolid,
    BgBitmap,
    BgBlur,
    /// The background blur level; levels above the maximum are sent as the maximum.
    BlurLevel(u8),
    ButtonDefault,
    ButtonRotate,
    NoiseReductionOff,
    NoiseReductionOn,
    BgSolidBlue,
    BgSolidGreen,
    BgSolidRed,
    BgSolidBlack,
    BgSolidWhite,
    AutoFrameGroup,
    AutoFrameFace,
    AutoFrameBody,
    /// The number of the background image.
    BgBitmapN(u16),
    /// The auto-sleep delay, in seconds.
    Sleep(u16),
}

/// The blur level that is sent for a requested level.
pub open spec fn clamp_blur_level(level: u8) -> u8 {
    if level < MAX_BLUR_LEVEL {
        level
    } else {
        MAX_BLUR_LEVEL
    }
}

/// The settings frame that makes setting `s`.
pub open spec fn setting_frame(s: Setting) -> Seq<u8> {
    match s {
        Setting::EffectOff => frame(CAMERA_EFFECT_OFF@, seq![]),
        Setting::EffectBg => frame(CAMERA_EFFECT_BG@, seq![]),
        Setting::EffectTrack => frame(CAMERA_EFFECT_TRACK@, seq![]),
        Setting::HdrOff => frame(CAMERA_HDR_OFF@, seq![]),
        Setting::HdrOn => frame(CAMERA_HDR_ON@, seq![]),
        Setting::FaceAeOff => frame(CAMERA_FACE_AE_OFF@, seq![]),
        Setting::FaceAeOn => frame(CAMERA_FACE_AE_ON@, seq![]),
        Setting::Angle65 => frame(CAMERA_ANGLE_65@, seq![]),
        Setting::Angle78 => frame(CAMERA_ANGLE_78@, seq![]),
        Setting::Angle85 => frame(CAMERA_ANGLE_85@, seq![]),
        Setting::BgSolid => frame(CAMERA_BG_SOLID@, seq![]),
        Setting::BgBitmap => frame(CAMERA_BG_BITMAP@, seq![]),
        Setting::BgBlur => frame(CAMERA_BG_BLUR@, seq![]),
        Setting::BlurLevel(level) => frame(CAMERA_BG_BLUR_LEVEL@, seq![clamp_blur_level(level)]),
        Setting::ButtonDefault => frame(CAMERA_BUTTON_DEFAULT@, seq![]),
        Setting::ButtonRotate => frame(CAMERA_BUTTON_ROTATE@, seq![]),
        Setting::NoiseReductionOff => frame(CAMERA_NOISE_REDUCTION_OFF@, seq![]),
        Setting::NoiseReductionOn => frame(CAMERA_NOISE_REDUCTION_ON@, seq![]),
        Setting::BgSolidBlue => frame(CAMERA_BG_SOLID_BLUE@, seq![]),
        Setting::BgSolidGreen => frame(CAMERA_BG_SOLID_GREEN@, seq![]),
        Setting::BgSolidRed => frame(CAMERA_BG_SOLID_RED@, seq![]),
        Setting::BgSolidBlack => frame(CAMERA_BG_SOLID_BLACK@, seq![]),
        Setting::BgSolidWhite => frame(CAMERA_BG_SOLID_WHITE@, seq![]),
        Setting::AutoFrameGroup => frame(CAMERA_AUTO_FRAME_GROUP@, seq![]),
        Setting::AutoFrameFace => frame(CAMERA_AUTO_FRAME_FACE@, seq![]),
        Setting::AutoFrameBody => frame(CAMERA_AUTO_FRAME_BODY@, seq![]),
        Setting::BgBitmapN(n) => frame(CAMERA_BG_BITMAP_N@, be_bytes(n)),
        Setting::Sleep(n) => frame(CAMERA_SLEEP_S@, le_bytes(n)),
    }
}

/// The settings that must also be made, in this order, for setting `s` to take
/// effect: a background colour needs the solid background and the background
/// effect, a tracking mode needs the tracking effect, and so on.
pub open spec fn prerequisites(s: Setting) -> Seq<Setting> {
    match s {
        Setting::BgSolid => seq![Setting::EffectBg],
        Setting::BgBitmap => seq![Setting::EffectBg],
        Setting::BgBlur => seq![Setting::EffectBg],
        Setting::BlurLevel(_) => seq![Setting::BgBlur, Setting::EffectBg],
        Setting::BgSolidBlue => seq![Setting::BgSolid, Setting::EffectBg],
        Setting::BgSolidGreen => seq![Setting::BgSolid, Setting::EffectBg],
        Setting::BgSolidRed => seq![Setting::BgSolid, Setting::EffectBg],
        Setting::BgSolidBlack => seq![Setting::BgSolid, Setting::EffectBg],
        Setting::BgSolidWhite => seq![Setting::BgSolid, Setting::EffectBg],
        Setting::AutoFrameGroup => seq![Setting::EffectTrack],
        Setting::AutoFrameFace => seq![Setting::EffectTrack],
        Setting::AutoFrameBody => seq![Setting::EffectTrack],
        Setting::BgBitmapN(_) => seq![Setting::BgBitmap, Setting::EffectBg],
        _ => seq![],
    }
}

/// The step that writes `data` to the settings control.
pub open spec fn write_step(data: Seq<u8>) -> StepView {
    StepView::Write { unit: SETTINGS_UNIT, selector: SETTINGS_SELECTOR, data }
}

/// The steps that make the settings `ss`, in order.
pub open spec fn settings_plan(ss: Seq<Setting>) -> Seq<StepView> {
    ss.map_values(|s: Setting| write_step(setting_frame(s)))
}

/// The steps of the command that makes setting `s` alone.
pub open spec fn setting_plan(s: Setting) -> Seq<StepView> {
    settings_plan(seq![s])
}

/// The steps of the command that makes setting `s` and then its prerequisites,
/// so that it takes effect at once.
pub open spec fn now_plan(s: Setting) -> Seq<StepView> {
    settings_plan(seq![s] + prerequisites(s))
}

/// The step that reads the settings control back.
pub open spec fn dump_step() -> StepView {
    StepView::Read { unit: SETTINGS_UNIT, selector: SETTINGS_SELECTOR, len: FRAME_LEN as nat }
}

/// The steps of `first` followed by those of `second`.
fn then(first: Vec<Step>, second: Vec<Step>) -> (plan: Vec<Step>)
    ensures
        plan.deep_view() == first.deep_view() + second.deep_view(),
{
    let mut plan = first;
    let mut rest = second;
    plan.append(&mut rest);
    assert(plan.deep_view() =~= first.deep_view() + second.deep_view());
    plan
}

/// The steps that make several settings are those of each setting in turn.
proof fn lemma_settings_plan_concat(a: Seq<Setting>, b: Seq<Setting>)
    ensures
        settings_plan(a + b) == settings_plan(a) + settings_plan(b),
{
    assert(settings_plan(a + b) =~= settings_plan(a) + settings_plan(b));
}

/// The steps of a setting made at once are its own step, then one step per prerequisite.
proof fn lemma_now_plan(s: Setting)
    ensures
        now_plan(s) == setting_plan(s) + settings_plan(prerequisites(s)),
        prerequisites(s).len() == 2 ==> now_plan(s) == setting_plan(s) + setting_plan(
            prerequisites(s)[0],
        ) + setting_plan(prerequisites(s)[1]),
        prerequisites(s).len() == 1 ==> now_plan(s) == setting_plan(s) + setting_plan(
            prerequisites(s)[0],
        ),
{
    lemma_settings_plan_concat(seq![s], prerequisites(s));
    let p = prerequisites(s);
    if p.len() == 2 {
        assert(p =~= seq![p[0]] + seq![p[1]]);
        lemma_settings_plan_concat(seq![p[0]], seq![p[1]]);
    }
    if p.len() == 1 {
        assert(p =~= seq![p[0]]);
    }
}

/// A UVC control request.
#[derive(Clone, Copy, Debug, PartialEq, Eq, Structural)]
pub enum Query {
    /// Ask the length of a control's value.
    GetLen,
    /// Read a control's current value.
    GetCur,
    /// Write a control's current value.
    SetCur,
}

/// The UVC request code of `q`.
pub open spec fn query_code(q: Query) -> u8 {
    match q {
        Query::GetLen => 0x85,
        Query::GetCur => 0x81,
        Query::SetCur => 0x01,
    }
}

impl Query {
    /// The UVC request code of this request.
    pub fn code(&self) -> (c: u8)
        ensures
            c == query_code(*self),
    {
        match self {
            Query::GetLen => 0x85,
            Query::GetCur => 0x81,
            Query::SetCur => 0x01,
        }
    }
}

/// What the camera's user must do next for the exchange in progress.
#[derive(Debug, PartialEq, Eq)]
pub enum Action {
    /// Show what the camera reports about itself, and report how that went.
    Describe,
    /// Perform UVC request `query` on control `selector` of `unit`, with
    /// `data` as the buffer (the value to write, or room for what is read),
    /// and report how that went.
    Query { unit: u8, selector: u8, query: Query, data: Vec<u8> },
    /// The camera reported a control length of `size`, which does not fit the
    /// buffer of the exchange: the command fails with `error`.
    Refused { size: usize, error: Errno },
    /// The command is over, with this result.
    Completed(Result<(), Errno>),
}

/// An `Action` as a mathematical value.
pub enum ActionView {
    Describe,
    Query { unit: u8, selector: u8, query: Query, data: Seq<u8> },
    Refused { size: nat, error: Errno },
    Completed(Result<(), Errno>),
}

impl DeepView for Action {
    type V = ActionView;

    open spec fn deep_view(&self) -> ActionView {
        match self {
            Action::Describe => ActionView::Describe,
            Action::Query { unit, selector, query, data } => ActionView::Query {
                unit: *unit,
                selector: *selector,
                query: *query,
                data: data@,
            },
            Action::Refused { size, error } => ActionView::Refused { size: *size as nat, error: *error },
            Action::Completed(r) => ActionView::Completed(*r),
        }
    }
}

/// Where the exchange of a command stands.
#[derive(Clone, Copy, Debug, PartialEq, Eq, Structural)]
pub enum Stage {
    /// No command is in progress.
    Idle,
    /// Waiting for the outcome of showing the camera's information.
    Describing,
    /// Waiting for the length of the control of the current step.
    Sizing,
    /// Waiting for the outcome of reading or writing the current step's control.
    Querying,
}

/// The state of a `Camera` as a mathematical value: the steps of the command
/// in progress, the index of the current one, and the stage of its exchange.
pub struct CameraView {
    pub pending: Seq<StepView>,
    pub next: nat,
    pub stage: Stage,
}

/// The state with no command in progress.
pub open spec fn idle() -> CameraView {
    CameraView { pending: seq![], next: 0, stage: Stage::Idle }
}

/// The states that the exchange can be in.
pub open spec fn well_formed(v: CameraView) -> bool {
    match v.stage {
        Stage::Idle => v == idle(),
        Stage::Describing => v.next < v.pending.len() && v.pending[v.next as int] is Info,
        Stage::Sizing | Stage::Querying => v.next < v.pending.len()
            && !(v.pending[v.next as int] is Info),
    }
}

/// The number of bytes that control-length reply bytes `bytes` announce.
pub open spec fn announced_len(bytes: Seq<u8>) -> nat {
    from_le(bytes[0], bytes[1])
}

/// The request that asks the length of control `selector` of `unit`.
pub open spec fn length_query(unit: u8, selector: u8) -> ActionView {
    ActionView::Query { unit, selector, query: Query::GetLen, data: seq![0u8, 0u8] }
}

/// The state and action that begin step `i` of `plan`, or complete the command
/// when there is no such step.
pub open spec fn begin_at(plan: Seq<StepView>, i: nat) -> (CameraView, ActionView) {
    if i >= plan.len() {
        (idle(), ActionView::Completed(Ok(())))
    } else {
        let at = CameraView { pending: plan, next: i, stage: Stage::Sizing };
        match plan[i as int] {
            StepView::Info => (
                CameraView { pending: plan, next: i, stage: Stage::Describing },
                ActionView::Describe,
            ),
            StepView::Read { unit, selector, len } => (at, length_query(unit, selector)),
            StepView::Write { unit, selector, data } => (at, length_query(unit, selector)),
        }
    }
}

/// The state and action when command `plan` starts.
pub open spec fn after_start(plan: Seq<StepView>) -> (CameraView, ActionView) {
    begin_at(plan, 0)
}

/// The state and action after the camera answers the length request of state
/// `s` with `reply`: a read needs a buffer at least as long as the control, a
/// write must be no longer than the control.
pub open spec fn after_length(s: CameraView, reply: Result<Seq<u8>, Errno>) -> (
    CameraView,
    ActionView,
) {
    match reply {
        Err(e) => (idle(), ActionView::Completed(Err(e))),
        Ok(bytes) => {
            let size = announced_len(bytes);
            let querying = CameraView { pending: s.pending, next: s.next, stage: Stage::Querying };
            match s.pending[s.next as int] {
                StepView::Read { unit, selector, len } => if len < size {
                    (idle(), ActionView::Refused { size, error: Errno(LENGTH_MISMATCH) })
                } else {
                    (
                        querying,
                        ActionView::Query {
                            unit,
                            selector,
                            query: Query::GetCur,
                            data: Seq::new(len, |_i: int| 0u8),
                        },
                    )
                },
                StepView::Write { unit, selector, data } => if data.len() > size {
                    (idle(), ActionView::Refused { size, error: Errno(LENGTH_MISMATCH) })
                } else {
                    (querying, ActionView::Query { unit, selector, query: Query::SetCur, data })
                },
                StepView::Info => (idle(), ActionView::Completed(Ok(()))),
            }
        },
    }
}

/// The state and action after the current step of state `s` ends with `reply`:
/// a failure ends the command with it, a success moves to the next step.
pub open spec fn after_reply(s: CameraView, reply: Result<(), Errno>) -> (CameraView, ActionView) {
    match reply {
        Err(e) => (idle(), ActionView::Completed(Err(e))),
        Ok(()) => begin_at(s.pending, s.next + 1),
    }
}

/// The length reply bytes as a mathematical value.
pub open spec fn length_reply_view(reply: Result<[u8; 2], Errno>) -> Result<Seq<u8>, Errno> {
    match reply {
        Ok(bytes) => Ok(bytes@),
        Err(e) => Err(e),
    }
}

/// The camera: the settings it takes, and the exchange that applies them.
///
/// A command is a plan of steps. `start` takes the plan and says what to do
/// first; the caller performs each action on the device and hands the outcome
/// back to `on_length` or `on_reply`, until the command is `Completed` or
/// `Refused`.
pub struct Camera {
    pending: Vec<Step>,
    next: usize,
    stage: Stage,
}

impl View for Camera {
    type V = CameraView;

    closed spec fn view(&self) -> CameraView {
        CameraView { pending: self.pending.deep_view(), next: self.next as nat, stage: self.stage }
    }
}

impl Camera {
    #[verifier::type_invariant]
    closed spec fn inv(&self) -> bool {
        well_formed(self@)
    }

    /// A camera with no command in progress.
    pub fn new() -> (c: Camera)
        ensures
            c@ == idle(),
    {
        let pending: Vec<Step> = Vec::new();
        assert(pending.deep_view() =~= seq![]);
        let c = Camera { pending, next: 0, stage: Stage::Idle };
        assert(c@ == idle());
        c
    }

    /// Where the exchange stands.
    pub fn stage(&self) -> (s: Stage)
        ensures
            s == self@.stage,
    {
        self.stage
    }

    /// The decoded control length of a length reply.
    fn get_len(reply: [u8; 2]) -> (size: usize)
        ensures
            size == announced_len(reply@),
    {
        from_le_bytes(reply) as usize
    }

    /// Begins step `i` of `plan`, or completes the command.
    fn begin(plan: Vec<Step>, i: usize) -> (r: (Camera, Action))
        ensures
            (r.0@, r.1.deep_view()) == begin_at(plan.deep_view(), i as nat),
    {
        if i >= plan.len() {
            (Camera::new(), Action::Completed(Ok(())))
        } else {
            let (unit, selector) = match &plan[i] {
                Step::Info => {
                    let c = Camera { pending: plan, next: i, stage: Stage::Describing };
                    return (c, Action::Describe);
                },
                Step::Read { unit, selector, len } => (*unit, *selector),
                Step::Write { unit, selector, data } => (*unit, *selector),
            };
            let mut buffer: Vec<u8> = Vec::new();
            buffer.push(0u8);
            buffer.push(0u8);
            assert(buffer@ =~= seq![0u8, 0u8]);
            let c = Camera { pending: plan, next: i, stage: Stage::Sizing };
            (c, Action::Query { unit, selector, query: Query::GetLen, data: buffer })
        }
    }

    /// Starts command `plan`.
    pub fn start(self, plan: Vec<Step>) -> (r: (Camera, Action))
        requires
            self@.stage == Stage::Idle,
        ensures
            (r.0@, r.1.deep_view()) == after_start(plan.deep_view()),
    {
        Camera::begin(plan, 0)
    }

    /// Takes the camera's answer to the length request of the current step.
    pub fn on_length(self, reply: Result<[u8; 2], Errno>) -> (r: (Camera, Action))
        requires
            self@.stage == Stage::Sizing,
        ensures
            (r.0@, r.1.deep_view()) == after_length(self@, length_reply_view(reply)),
    {
        proof {
            use_type_invariant(&self);
        }
        let Camera { pending, next, stage: _ } = self;
        match reply {
            Err(e) => (Camera::new(), Action::Completed(Err(e))),
            Ok(bytes) => {
                let size = Camera::get_len(bytes);
                let action = match &pending[next] {
                    Step::Read { unit, selector, len } => Camera::get_cur(*unit, *selector, *len, size),
                    Step::Write { unit, selector, data } => Camera::set_cur(*unit, *selector, data, size),
                    Step::Info => None,
                };
                match action {
                    Some(Action::Query { unit, selector, query, data }) => {
                        let c = Camera { pending, next, stage: Stage::Querying };
                        (c, Action::Query { unit, selector, query, data })
                    },
                    _ => (Camera::new(), Action::Refused { size, error: Errno(LENGTH_MISMATCH) }),
                }
            },
        }
    }

    /// The read request of a step that reads `len` bytes, when the control's
    /// length `size` fits that buffer.
    fn get_cur(unit: u8, selector: u8, len: usize, size: usize) -> (a: Option<Action>)
        ensures
            len < size ==> a is None,
            len >= size ==> (a matches Some(action) && action.deep_view() == (ActionView::Query {
                unit,
                selector,
                query: Query::GetCur,
                data: Seq::new(len as nat, |_i: int| 0u8),
            })),
    {
        if len < size {
            None
        } else {
            let mut buffer: Vec<u8> = Vec::new();
            while buffer.len() < len
                invariant
                    buffer@.len() <= len,
                    forall|k: int| 0 <= k < buffer@.len() ==> buffer@[k] == 0u8,
                decreases len - buffer@.len(),
            {
                buffer.push(0u8);
            }
            assert(buffer@ =~= Seq::new(len as nat, |_i: int| 0u8));
            Some(Action::Query { unit, selector, query: Query::GetCur, data: buffer })
        }
    }

    /// The write request of a step that writes `data`, when `data` is no longer
    /// than the control's length `size`.
    fn set_cur(unit: u8, selector: u8, data: &Vec<u8>, size: usize) -> (a: Option<Action>)
        ensures
            data@.len() > size ==> a is None,
            data@.len() <= size ==> (a matches Some(action) && action.deep_view() == (ActionView::Query {
                unit,
                selector,
                query: Query::SetCur,
                data: data@,
            })),
    {
        if data.len() > size {
            None
        } else {
            let copy = data.clone();
            assert(copy@ =~= data@);
            Some(Action::Query { unit, selector, query: Query::SetCur, data: copy })
        }
    }

    /// Takes the outcome of the current step's read, write or display.
    pub fn on_reply(self, reply: Result<(), Errno>) -> (r: (Camera, Action))
        requires
            self@.stage == Stage::Describing || self@.stage == Stage::Querying,
        ensures
            (r.0@, r.1.deep_view()) == after_reply(self@, reply),
    {
        proof {
            use_type_invariant(&self);
        }
        let Camera { pending, next, stage: _ } = self;
        match reply {
            Err(e) => (Camera::new(), Action::Completed(Err(e))),
            Ok(()) => {
                let count = pending.len();
                assert(next < count);
                Camera::begin(pending, next + 1)
            },
        }
    }

    /// The steps that show what the camera reports about itself.
    pub fn info(&self) -> (plan: Vec<Step>)
        ensures
            plan.deep_view() == seq![StepView::Info],
    {
        let mut plan = Vec::new();
        plan.push(Step::Info);
        assert(plan.deep_view() =~= seq![StepView::Info]);
        plan
    }

    /// The steps that read the settings control back, for display.
    pub fn dump(&self) -> (plan: Vec<Step>)
        ensures
            plan.deep_view() == seq![dump_step()],
    {
        let mut plan = Vec::new();
        plan.push(Step::Read { unit: SETTINGS_UNIT, selector: SETTINGS_SELECTOR, len: FRAME_LEN });
        assert(plan.deep_view() =~= seq![dump_step()]);
        plan
    }

    /// The step that writes the frame of `cmd` to control `selector` of `unit`.
    fn send_cmd(&self, unit: u8, selector: u8, cmd: &[u8]) -> (step: Step)
        requires
            cmd@.len() <= FRAME_LEN,
        ensures
            step.deep_view() == (StepView::Write { unit, selector, data: frame(cmd@, seq![]) }),
    {
        let data = fill_frame(cmd, &[]);
        Step::Write { unit, selector, data }
    }

    /// The step that writes the frame of `cmd` with parameter `p` to control
    /// `selector` of `unit`.
    fn send_cmd_p(&self, unit: u8, selector: u8, cmd: &[u8], p: &[u8]) -> (step: Step)
        requires
            cmd@.len() + p@.len() <= FRAME_LEN,
        ensures
            step.deep_view() == (StepView::Write { unit, selector, data: frame(cmd@, p@) }),
    {
        let data = fill_frame(cmd, p);
        Step::Write { unit, selector, data }
    }

    /// The steps that write the frame of `cmd` to the settings control.
    pub fn send_cmd_66(&self, cmd: &[u8]) -> (plan: Vec<Step>)
        requires
            cmd@.len() <= FRAME_LEN,
        ensures
            plan.deep_view() == seq![write_step(frame(cmd@, seq![]))],
    {
        let mut plan = Vec::new();
        plan.push(self.send_cmd(SETTINGS_UNIT, SETTINGS_SELECTOR, cmd));
        assert(plan.deep_view() =~= seq![write_step(frame(cmd@, seq![]))]);
        plan
    }

    /// The steps that write the frame of `cmd` with parameter `p` to the
    /// settings control.
    fn send_cmd_66_p(&self, cmd: &[u8], p: &[u8]) -> (plan: Vec<Step>)
        requires
            cmd@.len() + p@.len() <= FRAME_LEN,
        ensures
            plan.deep_view() == seq![write_step(frame(cmd@, p@))],
    {
        let mut plan = Vec::new();
        plan.push(self.send_cmd_p(SETTINGS_UNIT, SETTINGS_SELECTOR, cmd, p));
        assert(plan.deep_view() =~= seq![write_step(frame(cmd@, p@))]);
        plan
    }

    /// Turns the camera's effects off: a plain webcam.
    pub fn effect_off(&self) -> (plan: Vec<Step>)
        ensures
            plan.deep_view() == setting_plan(Setting::EffectOff),
    {
        let plan = self.send_cmd_66(&CAMERA_EFFECT_OFF);
        assert(plan.deep_view() =~= setting_plan(Setting::EffectOff));
        plan
    }

    /// Turns background replacement on, in the mode that `bg_solid`, `bg_bitmap` or `bg_blur` chose.
    pub fn effect_bg(&self) -> (plan: Vec<Step>)
        ensures
            plan.deep_view() == setting_plan(Setting::EffectBg),
    {
        let plan = self.send_cmd_66(&CAMERA_EFFECT_BG);
        assert(plan.deep_view() =~= setting_plan(Setting::EffectBg));
        plan
    }

    /// Turns face tracking on, in the mode that an `auto_frame_*` setting chose.
    pub fn effect_track(&self) -> (plan: Vec<Step>)
        ensures
            plan.deep_view() == setting_plan(Setting::EffectTrack),
    {
        let plan = self.send_cmd_66(&CAMERA_EFFECT_TRACK);
        assert(plan.deep_view() =~= setting_plan(Setting::EffectTrack));
        plan
    }

    /// Turns HDR off.
    pub fn hdr_off(&self) -> (plan: Vec<Step>)
        ensures
            plan.deep_view() == setting_plan(Setting::HdrOff),
    {
        let plan = self.send_cmd_66(&CAMERA_HDR_OFF);
        assert(plan.deep_view() =~= setting_plan(Setting::HdrOff));
        plan
    }

    /// Turns HDR on.
    pub fn hdr_on(&self) -> (plan: Vec<Step>)
        ensures
            plan.deep_view() == setting_plan(Setting::HdrOn),
    {
        let plan = self.send_cmd_66(&CAMERA_HDR_ON);
        assert(plan.deep_view() =~= setting_plan(Setting::HdrOn));
        plan
    }

    /// Turns face auto-exposure off.
    pub fn face_ae_off(&self) -> (plan: Vec<Step>)
        ensures
            plan.deep_view() == setting_plan(Setting::FaceAeOff),
    {
        let plan = self.send_cmd_66(&CAMERA_FACE_AE_OFF);
        assert(plan.deep_view() =~= setting_plan(Setting::FaceAeOff));
        plan
    }

    /// Turns face auto-exposure on.
    pub fn face_ae_on(&self) -> (plan: Vec<Step>)
        ensures
            plan.deep_view() == setting_plan(Setting::FaceAeOn),
    {
        let plan = self.send_cmd_66(&CAMERA_FACE_AE_ON);
        assert(plan.deep_view() =~= setting_plan(Setting::FaceAeOn));
        plan
    }

    /// Sets a 65 degree field of view.
    pub fn angle_65(&self) -> (plan: Vec<Step>)
        ensures
            plan.deep_view() == setting_plan(Setting::Angle65),
    {
        let plan = self.send_cmd_66(&CAMERA_ANGLE_65);
        assert(plan.deep_view() =~= setting_plan(Setting::Angle65));
        plan
    }

    /// Sets a 78 degree field of view.
    pub fn angle_78(&self) -> (plan: Vec<Step>)
        ensures
            plan.deep_view() == setting_plan(Setting::Angle78),
    {
        let plan = self.send_cmd_66(&CAMERA_ANGLE_78);
        assert(plan.deep_view() =~= setting_plan(Setting::Angle78));
        plan
    }

    /// Sets an 85 degree field of view.
    pub fn angle_85(&self) -> (plan: Vec<Step>)
        ensures
            plan.deep_view() == setting_plan(Setting::Angle85),
    {
        let plan = self.send_cmd_66(&CAMERA_ANGLE_85);
        assert(plan.deep_view() =~= setting_plan(Setting::Angle85));
        plan
    }

    /// Chooses a solid colour background, shown while background replacement is on.
    pub fn bg_solid(&self) -> (plan: Vec<Step>)
        ensures
            plan.deep_view() == setting_plan(Setting::BgSolid),
    {
        let plan = self.send_cmd_66(&CAMERA_BG_SOLID);
        assert(plan.deep_view() =~= setting_plan(Setting::BgSolid));
        plan
    }

    /// Chooses an image background, shown while background replacement is on.
    pub fn bg_bitmap(&self) -> (plan: Vec<Step>)
        ensures
            plan.deep_view() == setting_plan(Setting::BgBitmap),
    {
        let plan = self.send_cmd_66(&CAMERA_BG_BITMAP);
        assert(plan.deep_view() =~= setting_plan(Setting::BgBitmap));
        plan
    }

    /// Chooses a blurred background, shown while background replacement is on.
    pub fn bg_blur(&self) -> (plan: Vec<Step>)
        ensures
            plan.deep_view() == setting_plan(Setting::BgBlur),
    {
        let plan = self.send_cmd_66(&CAMERA_BG_BLUR);
        assert(plan.deep_view() =~= setting_plan(Setting::BgBlur));
        plan
    }

    /// Makes the camera's button do nothing.
    pub fn button_default(&self) -> (plan: Vec<Step>)
        ensures
            plan.deep_view() == setting_plan(Setting::ButtonDefault),
    {
        let plan = self.send_cmd_66(&CAMERA_BUTTON_DEFAULT);
        assert(plan.deep_view() =~= setting_plan(Setting::ButtonDefault));
        plan
    }

    /// Makes the camera's button cycle through the effects.
    pub fn button_rotate(&self) -> (plan: Vec<Step>)
        ensures
            plan.deep_view() == setting_plan(Setting::ButtonRotate),
    {
        let plan = self.send_cmd_66(&CAMERA_BUTTON_ROTATE);
        assert(plan.deep_view() =~= setting_plan(Setting::ButtonRotate));
        plan
    }

    /// Turns noise reduction off.
    pub fn noise_reduction_off(&self) -> (plan: Vec<Step>)
        ensures
            plan.deep_view() == setting_plan(Setting::NoiseReductionOff),
    {
        let plan = self.send_cmd_66(&CAMERA_NOISE_REDUCTION_OFF);
        assert(plan.deep_view() =~= setting_plan(Setting::NoiseReductionOff));
        plan
    }

    /// Turns noise reduction on.
    pub fn noise_reduction_on(&self) -> (plan: Vec<Step>)
        ensures
            plan.deep_view() == setting_plan(Setting::NoiseReductionOn),
    {
        let plan = self.send_cmd_66(&CAMERA_NOISE_REDUCTION_ON);
        assert(plan.deep_view() =~= setting_plan(Setting::NoiseReductionOn));
        plan
    }

    /// Sets the solid background colour to blue.
    pub fn bg_solid_blue(&self) -> (plan: Vec<Step>)
        ensures
            plan.deep_view() == setting_plan(Setting::BgSolidBlue),
    {
        let plan = self.send_cmd_66(&CAMERA_BG_SOLID_BLUE);
        assert(plan.deep_view() =~= setting_plan(Setting::BgSolidBlue));
        plan
    }

    /// Sets the solid background colour to green.
    pub fn bg_solid_green(&self) -> (plan: Vec<Step>)
        ensures
            plan.deep_view() == setting_plan(Setting::BgSolidGreen),
    {
        let plan = self.send_cmd_66(&CAMERA_BG_SOLID_GREEN);
        assert(plan.deep_view() =~= setting_plan(Setting::BgSolidGreen));
        plan
    }

    /// Sets the solid background colour to red.
    pub fn bg_solid_red(&self) -> (plan: Vec<Step>)
        ensures
            plan.deep_view() == setting_plan(Setting::BgSolidRed),
    {
        let plan = self.send_cmd_66(&CAMERA_BG_SOLID_RED);
        assert(plan.deep_view() =~= setting_plan(Setting::BgSolidRed));
        plan
    }

    /// Sets the solid background colour to black.
    pub fn bg_solid_black(&self) -> (plan: Vec<Step>)
        ensures
            plan.deep_view() == setting_plan(Setting::BgSolidBlack),
    {
        let plan = self.send_cmd_66(&CAMERA_BG_SOLID_BLACK);
        assert(plan.deep_view() =~= setting_plan(Setting::BgSolidBlack));
        plan
    }

    /// Sets the solid background colour to white.
    pub fn bg_solid_white(&self) -> (plan: Vec<Step>)
        ensures
            plan.deep_view() == setting_plan(Setting::BgSolidWhite),
    {
        let plan = self.send_cmd_66(&CAMERA_BG_SOLID_WHITE);
        assert(plan.deep_view() =~= setting_plan(Setting::BgSolidWhite));
        plan
    }

    /// Tracks a group of people, while tracking is on.
    pub fn auto_frame_group(&self) -> (plan: Vec<Step>)
        ensures
            plan.deep_view() == setting_plan(Setting::AutoFrameGroup),
    {
        let plan = self.send_cmd_66(&CAMERA_AUTO_FRAME_GROUP);
        assert(plan.deep_view() =~= setting_plan(Setting::AutoFrameGroup));
        plan
    }

    /// Tracks a single face, while tracking is on.
    pub fn auto_frame_face(&self) -> (plan: Vec<Step>)
        ensures
            plan.deep_view() == setting_plan(Setting::AutoFrameFace),
    {
        let plan = self.send_cmd_66(&CAMERA_AUTO_FRAME_FACE);
        assert(plan.deep_view() =~= setting_plan(Setting::AutoFrameFace));
        plan
    }

    /// Tracks a single upper body, while tracking is on.
    pub fn auto_frame_body(&self) -> (plan: Vec<Step>)
        ensures
            plan.deep_view() == setting_plan(Setting::AutoFrameBody),
    {
        let plan = self.send_cmd_66(&CAMERA_AUTO_FRAME_BODY);
        assert(plan.deep_view() =~= setting_plan(Setting::AutoFrameBody));
        plan
    }

    /// As `bg_solid`, then turns on what the setting needs to take effect.
    pub fn bg_solid_now(&self) -> (plan: Vec<Step>)
        ensures
            plan.deep_view() == now_plan(Setting::BgSolid),
    {
        let plan = self.bg_solid();
        let plan = then(plan, self.effect_bg());
        proof { lemma_now_plan(Setting::BgSolid); }
        plan
    }

    /// As `bg_bitmap`, then turns on what the setting needs to take effect.
    pub fn bg_bitmap_now(&self) -> (plan: Vec<Step>)
        ensures
            plan.deep_view() == now_plan(Setting::BgBitmap),
    {
        let plan = self.bg_bitmap();
        let plan = then(plan, self.effect_bg());
        proof { lemma_now_plan(Setting::BgBitmap); }
        plan
    }

    /// As `bg_blur`, then turns on what the setting needs to take effect.
    pub fn bg_blur_now(&self) -> (plan: Vec<Step>)
        ensures
            plan.deep_view() == now_plan(Setting::BgBlur),
    {
        let plan = self.bg_blur();
        let plan = then(plan, self.effect_bg());
        proof { lemma_now_plan(Setting::BgBlur); }
        plan
    }

    /// As `bg_solid_blue`, then turns on what the setting needs to take effect.
    pub fn bg_solid_blue_now(&self) -> (plan: Vec<Step>)
        ensures
            plan.deep_view() == now_plan(Setting::BgSolidBlue),
    {
        let plan = self.bg_solid_blue();
        let plan = then(plan, self.bg_solid());
        let plan = then(plan, self.effect_bg());
        proof { lemma_now_plan(Setting::BgSolidBlue); }
        plan
    }

    /// As `bg_solid_green`, then turns on what the setting needs to take effect.
    pub fn bg_solid_green_now(&self) -> (plan: Vec<Step>)
        ensures
            plan.deep_view() == now_plan(Setting::BgSolidGreen),
    {
        let plan = self.bg_solid_green();
        let plan = then(plan, self.bg_solid());
        let plan = then(plan, self.effect_bg());
        proof { lemma_now_plan(Setting::BgSolidGreen); }
        plan
    }

    /// As `bg_solid_red`, then turns on what the setting needs to take effect.
    pub fn bg_solid_red_now(&self) -> (plan: Vec<Step>)
        ensures
            plan.deep_view() == now_plan(Setting::BgSolidRed),
    {
        let plan = self.bg_solid_red();
        let plan = then(plan, self.bg_solid());
        let plan = then(plan, self.effect_bg());
        proof { lemma_now_plan(Setting::BgSolidRed); }
        plan
    }

    /// As `bg_solid_black`, then turns on what the setting needs to take effect.
    pub fn bg_solid_black_now(&self) -> (plan: Vec<Step>)
        ensures
            plan.deep_view() == now_plan(Setting::BgSolidBlack),
    {
        let plan = self.bg_solid_black();
        let plan = then(plan, self.bg_solid());
        let plan = then(plan, self.effect_bg());
        proof { lemma_now_plan(Setting::BgSolidBlack); }
        plan
    }

    /// As `bg_solid_white`, then turns on what the setting needs to take effect.
    pub fn bg_solid_white_now(&self) -> (plan: Vec<Step>)
        ensures
            plan.deep_view() == now_plan(Setting::BgSolidWhite),
    {
        let plan = self.bg_solid_white();
        let plan = then(plan, self.bg_solid());
        let plan = then(plan, self.effect_bg());
        proof { lemma_now_plan(Setting::BgSolidWhite); }
        plan
    }

    /// As `auto_frame_group`, then turns on what the setting needs to take effect.
    pub fn auto_frame_group_now(&self) -> (plan: Vec<Step>)
        ensures
            plan.deep_view() == now_plan(Setting::AutoFrameGroup),
    {
        let plan = self.auto_frame_group();
        let plan = then(plan, self.effect_track());
        proof { lemma_now_plan(Setting::AutoFrameGroup); }
        plan
    }

    /// As `auto_frame_face`, then turns on what the setting needs to take effect.
    pub fn auto_frame_face_now(&self) -> (plan: Vec<Step>)
        ensures
            plan.deep_view() == now_plan(Setting::AutoFrameFace),
    {
        let plan = self.auto_frame_face();
        let plan = then(plan, self.effect_track());
        proof { lemma_now_plan(Setting::AutoFrameFace); }
        plan
    }

    /// As `auto_frame_body`, then turns on what the setting needs to take effect.
    pub fn auto_frame_body_now(&self) -> (plan: Vec<Step>)
        ensures
            plan.deep_view() == now_plan(Setting::AutoFrameBody),
    {
        let plan = self.auto_frame_body();
        let plan = then(plan, self.effect_track());
        proof { lemma_now_plan(Setting::AutoFrameBody); }
        plan
    }

    /// Sends the blur level `level`, or the maximum level where `level` is above it.
    pub fn blur_level(&self, level: u8) -> (plan: Vec<Step>)
        ensures
            plan.deep_view() == setting_plan(Setting::BlurLevel(level)),
    {
        let sent = if level < MAX_BLUR_LEVEL { level } else { MAX_BLUR_LEVEL };
        let param = [sent];
        assert(param@ =~= seq![clamp_blur_level(level)]);
        let plan = self.send_cmd_66_p(&CAMERA_BG_BLUR_LEVEL, &param);
        assert(plan.deep_view() =~= setting_plan(Setting::BlurLevel(level)));
        plan
    }

    /// As `blur_level`, then turns on the blurred background and background replacement.
    pub fn blur_level_now(&self, level: u8) -> (plan: Vec<Step>)
        ensures
            plan.deep_view() == now_plan(Setting::BlurLevel(level)),
    {
        let plan = self.blur_level(level);
        let plan = then(plan, self.bg_blur());
        let plan = then(plan, self.effect_bg());
        proof { lemma_now_plan(Setting::BlurLevel(level)); }
        plan
    }

    /// Selects background image number `n`, sent most significant byte first.
    pub fn bg_bitmap_n(&self, n: u16) -> (plan: Vec<Step>)
        ensures
            plan.deep_view() == setting_plan(Setting::BgBitmapN(n)),
    {
        let plan = self.send_cmd_66_p(&CAMERA_BG_BITMAP_N, &to_be_bytes(n));
        assert(plan.deep_view() =~= setting_plan(Setting::BgBitmapN(n)));
        plan
    }

    /// As `bg_bitmap_n`, then turns on the image background and background replacement.
    pub fn bg_bitmap_n_now(&self, n: u16) -> (plan: Vec<Step>)
        ensures
            plan.deep_view() == now_plan(Setting::BgBitmapN(n)),
    {
        let plan = self.bg_bitmap_n(n);
        let plan = then(plan, self.bg_bitmap());
        let plan = then(plan, self.effect_bg());
        proof { lemma_now_plan(Setting::BgBitmapN(n)); }
        plan
    }

    /// Turns on auto-sleep after `n` seconds, sent least significant byte first.
    pub fn sleep(&self, n: u16) -> (plan: Vec<Step>)
        ensures
            plan.deep_view() == setting_plan(Setting::Sleep(n)),
    {
        let plan = self.send_cmd_66_p(&CAMERA_SLEEP_S, &to_le_bytes(n));
        assert(plan.deep_view() =~= setting_plan(Setting::Sleep(n)));
        plan
    }
}

impl Camera {
    /// The steps that make setting `s`.
    pub fn apply(&self, s: &Setting) -> (plan: Vec<Step>)
        ensures
            plan.deep_view() == setting_plan(*s),
    {
        match s {
            Setting::EffectOff => self.effect_off(),
            Setting::EffectBg => self.effect_bg(),
            Setting::EffectTrack => self.effect_track(),
            Setting::HdrOff => self.hdr_off(),
            Setting::HdrOn => self.hdr_on(),
            Setting::FaceAeOff => self.face_ae_off(),
            Setting::FaceAeOn => self.face_ae_on(),
            Setting::Angle65 => self.angle_65(),
            Setting::Angle78 => self.angle_78(),
            Setting::Angle85 => self.angle_85(),
            Setting::BgSolid => self.bg_solid(),
            Setting::BgBitmap => self.bg_bitmap(),
            Setting::BgBlur => self.bg_blur(),
            Setting::BlurLevel(level) => self.blur_level(*level),
            Setting::ButtonDefault => self.button_default(),
            Setting::ButtonRotate => self.button_rotate(),
            Setting::NoiseReductionOff => self.noise_reduction_off(),
            Setting::NoiseReductionOn => self.noise_reduction_on(),
            Setting::BgSolidBlue => self.bg_solid_blue(),
            Setting::BgSolidGreen => self.bg_solid_green(),
            Setting::BgSolidRed => self.bg_solid_red(),
            Setting::BgSolidBlack => self.bg_solid_black(),
            Setting::BgSolidWhite => self.bg_solid_white(),
            Setting::AutoFrameGroup => self.auto_frame_group(),
            Setting::AutoFrameFace => self.auto_frame_face(),
            Setting::AutoFrameBody => self.auto_frame_body(),
            Setting::BgBitmapN(n) => self.bg_bitmap_n(*n),
            Setting::Sleep(n) => self.sleep(*n),
        }
    }

    /// The steps that make setting `s` and then the settings it needs to take effect.
    pub fn apply_now(&self, s: &Setting) -> (plan: Vec<Step>)
        ensures
            plan.deep_view() == now_plan(*s),
    {
        proof {
            lemma_now_plan(*s);
            assert(settings_plan(seq![]) =~= seq![]);
        }
        match s {
            Setting::EffectOff => self.effect_off(),
            Setting::EffectBg => self.effect_bg(),
            Setting::EffectTrack => self.effect_track(),
            Setting::HdrOff => self.hdr_off(),
            Setting::HdrOn => self.hdr_on(),
            Setting::FaceAeOff => self.face_ae_off(),
            Setting::FaceAeOn => self.face_ae_on(),
            Setting::Angle65 => self.angle_65(),
            Setting::Angle78 => self.angle_78(),
            Setting::Angle85 => self.angle_85(),
            Setting::BgSolid => self.bg_solid_now(),
            Setting::BgBitmap => self.bg_bitmap_now(),
            Setting::BgBlur => self.bg_blur_now(),
            Setting::BlurLevel(level) => self.blur_level_now(*level),
            Setting::ButtonDefault => self.button_default(),
            Setting::ButtonRotate => self.button_rotate(),
            Setting::NoiseReductionOff => self.noise_reduction_off(),
            Setting::NoiseReductionOn => self.noise_reduction_on(),
            Setting::BgSolidBlue => self.bg_solid_blue_now(),
            Setting::BgSolidGreen => self.bg_solid_green_now(),
            Setting::BgSolidRed => self.bg_solid_red_now(),
            Setting::BgSolidBlack => self.bg_solid_black_now(),
            Setting::BgSolidWhite => self.bg_solid_white_now(),
            Setting::AutoFrameGroup => self.auto_frame_group_now(),
            Setting::AutoFrameFace => self.auto_frame_face_now(),
            Setting::AutoFrameBody => self.auto_frame_body_now(),
            Setting::BgBitmapN(n) => self.bg_bitmap_n_now(*n),
            Setting::Sleep(n) => self.sleep(*n),
        }
    }
}

} // verus!
