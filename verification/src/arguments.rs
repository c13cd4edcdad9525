//! The arguments of the commands: how they are checked, how they are
//! written, and how a request line is built from them.

use vstd::prelude::*;
use crate::connection::AdjustAction;
use crate::connection::AdjustableProp;
use crate::connection::CT_MAX;
use crate::connection::CT_MIN;
use crate::connection::CfAction;
use crate::connection::ColorFlow;
use crate::connection::Cron;
use crate::connection::CronType;
use crate::connection::FlowTuple;
use crate::connection::FlowTupleMode;
use crate::connection::MAX_BRIGHTNESS;
use crate::connection::MINIMUM_CF_DURATION;
use crate::connection::MINIMUM_TRANSITION_DURATION;
use crate::connection::MIN_AUTO_DELAY_OFF_MINUTES;
use crate::connection::MethodCallError;
use crate::connection::MusicMode;
use crate::connection::PowerMode;
use crate::connection::Scene;
use crate::connection::TransitionMode;
use crate::connection::millis_of;
use crate::connection::whole_millis;
use crate::lightmode::HSV;
use crate::lightmode::MAX_HUE;
use crate::lightmode::MAX_SATURATION;
use crate::method::Method;
use crate::method::method_name;
use crate::power::Power;
use crate::power::power_name;
use crate::rgb::RGB;
use crate::rgb::packed;
use crate::text::chars_of;
use crate::text::decimal;
use crate::text::join;
use crate::text::join_chars;
use crate::text::push_all;
use crate::text::push_decimal;
use crate::text::push_signed;
use crate::text::push_str;
use crate::text::rows;
use crate::text::signed_decimal;
use crate::text::text_of;

verus! {

/// An argument of a call, as it is held while a request is built.
pub enum MethodArg {
    String(String),
    Int(i32),
}

/// An argument of a call: a text or an integer.
pub enum Arg {
    Text(Seq<char>),
    Int(i32),
}

impl View for MethodArg {
    type V = Arg;

    open spec fn view(&self) -> Arg {
        match self {
            MethodArg::String(s) => Arg::Text(s@),
            MethodArg::Int(i) => Arg::Int(*i),
        }
    }
}

/// The views of a list of arguments.
pub open spec fn args_view(args: Seq<MethodArg>) -> Seq<Arg> {
    args.map_values(|arg: MethodArg| arg@)
}

/// The character that writes the hexadecimal digit `n`, in lower case.
pub open spec fn hex_digit(n: int) -> char {
    if n < 10 {
        ('0' as u8 + n) as char
    } else {
        ('a' as u8 + (n - 10)) as char
    }
}

/// A character as it stands inside a JSON string: a double quote and a
/// backslash after a backslash, a control character (below U+0020) as
/// `\u00` and its two hexadecimal digits, any other character as it is.
pub open spec fn escaped_char(c: char) -> Seq<char> {
    if c == '"' {
        seq!['\\', '"']
    } else if c == '\\' {
        seq!['\\', '\\']
    } else if (c as u32) < 0x20 {
        seq![
            '\\',
            'u',
            '0',
            '0',
            hex_digit((c as u32 / 16) as int),
            hex_digit((c as u32 % 16) as int),
        ]
    } else {
        seq![c]
    }
}

/// A text as it stands inside a JSON string: each character escaped.
pub open spec fn escaped(s: Seq<char>) -> Seq<char>
    decreases s.len(),
{
    if s.len() == 0 {
        Seq::empty()
    } else {
        escaped(s.drop_last()) + escaped_char(s.last())
    }
}

/// An argument as it stands in a request: a text as a JSON string, that is
/// escaped and between double quotes, or an integer as a decimal numeral.
pub open spec fn arg_text(arg: Arg) -> Seq<char> {
    match arg {
        Arg::Text(s) => seq!['"'] + escaped(s) + seq!['"'],
        Arg::Int(i) => signed_decimal(i as int),
    }
}

/// The arguments of a request, each as it stands there.
pub open spec fn arg_texts(args: Seq<Arg>) -> Seq<Seq<char>> {
    args.map_values(|arg: Arg| arg_text(arg))
}

/// The request line of a call: one JSON object with the members `id`,
/// `method` and `params`, and CR LF at its end.
pub open spec fn message(id: i16, method: Method, args: Seq<Arg>) -> Seq<char> {
    "{\"id\":"@ + signed_decimal(id as int) + ",\"method\":\""@ + method_name(method)
        + "\",\"params\":["@ + join(arg_texts(args), ", "@) + "]}\r\n"@
}

/// The character that writes the hexadecimal digit `n`.
fn hex(n: u32) -> (c: char)
    requires
        n < 16,
    ensures
        c == hex_digit(n as int),
{
    if n < 10 {
        (48u8 + n as u8) as char
    } else {
        (97u8 + (n as u8 - 10)) as char
    }
}

/// Appends `s` to `out` as it stands inside a JSON string.
pub fn push_escaped(out: &mut Vec<char>, s: &str)
    ensures
        final(out)@ == old(out)@ + escaped(s@),
{
    let chars = chars_of(s);
    let mut i: usize = 0;
    assert(chars@.subrange(0, 0) =~= Seq::<char>::empty());
    assert(out@ =~= old(out)@ + escaped(chars@.subrange(0, 0)));
    while i < chars.len()
        invariant
            i <= chars@.len(),
            out@ == old(out)@ + escaped(chars@.subrange(0, i as int)),
        decreases chars.len() - i,
    {
        let c = chars[i];
        let ghost done = chars@.subrange(0, i as int);
        let ghost next = chars@.subrange(0, i + 1);
        let ghost before = out@;
        assert(next.drop_last() =~= done);
        assert(next.last() == c);
        let code: u32 = c as u32;
        if c == '"' {
            out.push('\\');
            out.push('"');
        } else if c == '\\' {
            out.push('\\');
            out.push('\\');
        } else if code < 0x20 {
            out.push('\\');
            out.push('u');
            out.push('0');
            out.push('0');
            out.push(hex(code / 16));
            out.push(hex(code % 16));
        } else {
            out.push(c);
        }
        assert(out@ =~= before + escaped_char(c));
        assert(out@ =~= old(out)@ + escaped(next));
        i += 1;
    }
    assert(chars@.subrange(0, i as int) =~= chars@);
}

impl MethodArg {
    /// The argument as it stands in a request.
    pub fn to_str(&self) -> (text: String)
        ensures
            text@ == arg_text(self@),
    {
        text_of(self.to_chars().as_slice())
    }

    /// The characters of the argument as it stands in a request.
    pub fn to_chars(&self) -> (text: Vec<char>)
        ensures
            text@ == arg_text(self@),
    {
        let mut out: Vec<char> = Vec::new();
        match self {
            MethodArg::String(s) => {
                out.push('"');
                push_escaped(&mut out, s.as_str());
                out.push('"');
                assert(out@ =~= seq!['"'] + escaped(s@) + seq!['"']);
            },
            MethodArg::Int(i) => {
                push_signed(&mut out, *i as i64);
                assert(out@ =~= signed_decimal(*i as int));
            },
        }
        out
    }
}

/// Builds the request line of a call.
pub fn create_message(id: i16, method: &Method, args: Vec<MethodArg>) -> (line: String)
    ensures
        line@ == message(id, *method, args_view(args@)),
{
    let mut texts: Vec<Vec<char>> = Vec::new();
    let mut i: usize = 0;
    while i < args.len()
        invariant
            i <= args.len(),
            rows(texts@) == arg_texts(args_view(args@)).subrange(0, i as int),
        decreases args.len() - i,
    {
        let ghost before = rows(texts@);
        let text = args[i].to_chars();
        assert(arg_texts(args_view(args@))[i as int] == arg_text(args@[i as int]@));
        texts.push(text);
        assert(rows(texts@) =~= before.push(text@));
        i += 1;
        assert(rows(texts@) =~= arg_texts(args_view(args@)).subrange(0, i as int));
    }
    assert(rows(texts@) =~= arg_texts(args_view(args@)));
    let comma = chars_of(", ");
    let params = join_chars(&texts, comma.as_slice());
    let mut out: Vec<char> = Vec::new();
    push_str(&mut out, "{\"id\":");
    push_signed(&mut out, id as i64);
    push_str(&mut out, ",\"method\":\"");
    push_str(&mut out, method.name());
    push_str(&mut out, "\",\"params\":[");
    push_all(&mut out, params.as_slice());
    push_str(&mut out, "]}\r\n");
    text_of(out.as_slice())
}

/// Whether a step of `millis` milliseconds that shows `mode` may be sent:
/// it lasts at least `MINIMUM_CF_DURATION` milliseconds, its length fits in
/// 32 bits, its brightness, if it has one, is at most `MAX_BRIGHTNESS`, and
/// its colour temperature, if it has one, lies between `CT_MIN` and `CT_MAX`.
pub open spec fn step_valid_at(millis: nat, mode: FlowTupleMode) -> bool {
    &&& MINIMUM_CF_DURATION <= millis <= u32::MAX
    &&& match mode {
        FlowTupleMode::Color(c) => c.brightness <= MAX_BRIGHTNESS,
        FlowTupleMode::Ct(c) => CT_MIN <= c.ct <= CT_MAX && c.brightness <= MAX_BRIGHTNESS,
        FlowTupleMode::Sleep => true,
    }
}

/// The four numbers that stand for a step of `millis` milliseconds that
/// shows `mode`: its length; the kind of the step (1 colour, 2 colour
/// temperature, 7 sleep); the colour or the temperature; the brightness.
pub open spec fn step_numbers_at(millis: nat, mode: FlowTupleMode) -> Seq<u32> {
    let length = millis as u32;
    match mode {
        FlowTupleMode::Color(c) => seq![length, 1u32, packed(c.color) as u32, c.brightness as u32],
        FlowTupleMode::Ct(c) => seq![length, 2u32, c.ct as u32, c.brightness as u32],
        FlowTupleMode::Sleep => seq![length, 7u32, 0u32, 0u32],
    }
}

/// Whether a step of a colour flow may be sent.
pub open spec fn step_valid(step: FlowTuple) -> bool {
    step_valid_at(millis_of(step.duration), step.mode)
}

/// The four numbers that stand for a step of a colour flow.
pub open spec fn step_numbers(step: FlowTuple) -> Seq<u32> {
    step_numbers_at(millis_of(step.duration), step.mode)
}

/// Whether every step of a colour flow may be sent.
pub open spec fn flow_valid(steps: Seq<FlowTuple>) -> bool {
    forall|i: int| 0 <= i < steps.len() ==> step_valid(#[trigger] steps[i])
}

/// The numbers of all steps of a colour flow, step after step.
pub open spec fn flow_numbers(steps: Seq<FlowTuple>) -> Seq<u32>
    decreases steps.len(),
{
    if steps.len() == 0 {
        Seq::empty()
    } else {
        flow_numbers(steps.drop_last()) + step_numbers(steps.last())
    }
}

/// The decimal numerals of a list of numbers.
pub open spec fn numerals(numbers: Seq<u32>) -> Seq<Seq<char>> {
    numbers.map_values(|n: u32| decimal(n as nat))
}

/// The number that stands for what a device does when a colour flow ends.
pub open spec fn action_code(action: CfAction) -> i32 {
    match action {
        CfAction::Recover => 0,
        CfAction::Stay => 1,
        CfAction::TurnOff => 2,
    }
}

/// The arguments that start a colour flow: how often it runs, what follows
/// it, and the numbers of its steps, separated by commas.
pub open spec fn flow_args(flow: ColorFlow) -> Seq<Arg> {
    seq![
        Arg::Int(flow.count as i32),
        Arg::Int(action_code(flow.action)),
        Arg::Text(join(numerals(flow_numbers(flow.sequence@)), ","@)),
    ]
}

/// The word for the kind of a scene.
pub open spec fn scene_name(scene: Scene) -> Seq<char> {
    match scene {
        Scene::Color(_, _) => "color"@,
        Scene::HSV(_, _) => "hsv"@,
        Scene::Ct(_, _) => "ct"@,
        Scene::Cf(_) => "cf"@,
        Scene::AutoDelayOff(_, _) => "auto_delay_off"@,
    }
}

/// Whether a scene may be sent: a brightness is at most `MAX_BRIGHTNESS`,
/// hue and saturation are within their ranges, a colour temperature lies
/// between `CT_MIN` and `CT_MAX`, a colour flow is valid, and an automatic
/// switch-off waits at least `MIN_AUTO_DELAY_OFF_MINUTES`.
pub open spec fn scene_valid(scene: Scene) -> bool {
    match scene {
        Scene::Color(_, brightness) => brightness <= MAX_BRIGHTNESS,
        Scene::HSV(hsv, brightness) => hsv.hue <= MAX_HUE && hsv.saturation <= MAX_SATURATION
            && brightness <= MAX_BRIGHTNESS,
        Scene::Ct(ct, brightness) => CT_MIN <= ct <= CT_MAX && brightness <= MAX_BRIGHTNESS,
        Scene::Cf(flow) => flow_valid(flow.sequence@),
        Scene::AutoDelayOff(brightness, minutes) => minutes >= MIN_AUTO_DELAY_OFF_MINUTES
            && brightness <= MAX_BRIGHTNESS,
    }
}

/// The arguments that set a scene: the word for its kind, then its values.
pub open spec fn scene_args(scene: Scene) -> Seq<Arg> {
    match scene {
        Scene::Color(rgb, brightness) => seq![
            Arg::Text(scene_name(scene)),
            Arg::Int(packed(*rgb) as i32),
            Arg::Int(brightness as i32),
        ],
        Scene::HSV(hsv, brightness) => seq![
            Arg::Text(scene_name(scene)),
            Arg::Int(hsv.hue as i32),
            Arg::Int(hsv.saturation as i32),
            Arg::Int(brightness as i32),
        ],
        Scene::Ct(ct, brightness) => seq![
            Arg::Text(scene_name(scene)),
            Arg::Int(ct as i32),
            Arg::Int(brightness as i32),
        ],
        Scene::Cf(flow) => seq![Arg::Text(scene_name(scene))] + flow_args(*flow),
        Scene::AutoDelayOff(brightness, minutes) => seq![
            Arg::Text(scene_name(scene)),
            Arg::Int(brightness as i32),
            Arg::Int(minutes as i32),
        ],
    }
}

/// Whether a smooth transition of `millis` milliseconds may be sent: it
/// lasts at least `MINIMUM_TRANSITION_DURATION` milliseconds, and its length
/// fits in 32 signed bits.
pub open spec fn smooth_valid(millis: nat) -> bool {
    MINIMUM_TRANSITION_DURATION <= millis <= i32::MAX
}

/// The two arguments that describe a smooth transition of `millis`
/// milliseconds: its word and its length.
pub open spec fn smooth_args_of(millis: nat) -> Seq<Arg> {
    seq![Arg::Text("smooth"@), Arg::Int(millis as i32)]
}

/// Whether a transition may be sent.
pub open spec fn transition_valid(mode: TransitionMode) -> bool {
    match mode {
        TransitionMode::Sudden => true,
        TransitionMode::Smooth(d) => smooth_valid(millis_of(d)),
    }
}

/// The two arguments that describe a transition: its word and its length
/// in milliseconds. A sudden one is sent with a length of 50.
pub open spec fn transition_args(mode: TransitionMode) -> Seq<Arg> {
    match mode {
        TransitionMode::Sudden => seq![Arg::Text("sudden"@), Arg::Int(50)],
        TransitionMode::Smooth(d) => smooth_args_of(millis_of(d)),
    }
}

/// The word for a property that can be adjusted.
pub open spec fn prop_name(prop: AdjustableProp) -> Seq<char> {
    match prop {
        AdjustableProp::Brightness => "bright"@,
        AdjustableProp::Ct => "ct"@,
        AdjustableProp::Color => "color"@,
    }
}

/// The word for the direction of an adjustment.
pub open spec fn adjust_name(action: AdjustAction) -> Seq<char> {
    match action {
        AdjustAction::Increase => "increase"@,
        AdjustAction::Decrease => "decrease"@,
        AdjustAction::Circle => "circle"@,
    }
}

/// The number that stands for a power mode.
pub open spec fn power_mode_code(mode: PowerMode) -> i32 {
    match mode {
        PowerMode::Ct => 1,
        PowerMode::Rgb => 2,
        PowerMode::Hsv => 3,
        PowerMode::ColorFlow => 4,
        PowerMode::NightLight => 5,
    }
}

impl AdjustableProp {
    /// The word for this property.
    pub fn as_str(&self) -> (word: &'static str)
        ensures
            word@ == prop_name(*self),
    {
        match self {
            AdjustableProp::Brightness => "bright",
            AdjustableProp::Ct => "ct",
            AdjustableProp::Color => "color",
        }
    }
}

impl AdjustAction {
    /// The word for this direction.
    pub fn as_str(&self) -> (word: &'static str)
        ensures
            word@ == adjust_name(*self),
    {
        match self {
            AdjustAction::Increase => "increase",
            AdjustAction::Decrease => "decrease",
            AdjustAction::Circle => "circle",
        }
    }
}

impl PowerMode {
    /// The number that stands for this mode.
    pub fn val(&self) -> (code: i32)
        ensures
            code == power_mode_code(*self),
    {
        match self {
            PowerMode::Ct => 1,
            PowerMode::Rgb => 2,
            PowerMode::Hsv => 3,
            PowerMode::ColorFlow => 4,
            PowerMode::NightLight => 5,
        }
    }
}

/// The four numbers of a step of `millis` milliseconds that shows `mode`,
/// or `BadRequest` where such a step may not be sent.
pub fn step_expression(millis: u128, mode: &FlowTupleMode) -> (numbers: Result<
    Vec<u32>,
    MethodCallError,
>)
    ensures
        match numbers {
            Ok(v) => step_valid_at(millis as nat, *mode) && v@ == step_numbers_at(
                millis as nat,
                *mode,
            ),
            Err(e) => !step_valid_at(millis as nat, *mode) && e@ is BadRequest,
        },
{
    if millis < MINIMUM_CF_DURATION || millis > 0xFFFF_FFFF {
        return Err(MethodCallError::BadRequest);
    }
    let length: u32 = millis as u32;
    let (kind, value, brightness): (u32, u32, u32) = match mode {
        FlowTupleMode::Color(c) => {
            if c.brightness > MAX_BRIGHTNESS {
                return Err(MethodCallError::BadRequest);
            }
            (1, c.color.to_u32(), c.brightness as u32)
        },
        FlowTupleMode::Ct(ct) => {
            if ct.ct < CT_MIN || ct.ct > CT_MAX || ct.brightness > MAX_BRIGHTNESS {
                return Err(MethodCallError::BadRequest);
            }
            (2, ct.ct as u32, ct.brightness as u32)
        },
        FlowTupleMode::Sleep => (7, 0, 0),
    };
    let mut numbers: Vec<u32> = Vec::new();
    numbers.push(length);
    numbers.push(kind);
    numbers.push(value);
    numbers.push(brightness);
    assert(numbers@ =~= step_numbers_at(millis as nat, *mode));
    Ok(numbers)
}

impl FlowTuple {
    /// The four numbers of this step, or `BadRequest` where the step may not
    /// be sent.
    pub fn to_expression(&self) -> (numbers: Result<Vec<u32>, MethodCallError>)
        ensures
            match numbers {
                Ok(v) => step_valid(*self) && v@ == step_numbers(*self),
                Err(e) => !step_valid(*self) && e@ is BadRequest,
            },
    {
        step_expression(whole_millis(&self.duration), &self.mode)
    }
}

impl CfAction {
    /// The number that stands for this action.
    pub fn val(&self) -> (code: i32)
        ensures
            code == action_code(*self),
    {
        match self {
            CfAction::Recover => 0,
            CfAction::Stay => 1,
            CfAction::TurnOff => 2,
        }
    }
}

impl ColorFlow {
    /// The arguments that start this colour flow, or `BadRequest` where one
    /// of its steps may not be sent.
    pub fn params(&self) -> (args: Result<Vec<MethodArg>, MethodCallError>)
        ensures
            match args {
                Ok(v) => flow_valid(self.sequence@) && args_view(v@) == flow_args(*self),
                Err(e) => !flow_valid(self.sequence@) && e@ is BadRequest,
            },
    {
        let mut texts: Vec<Vec<char>> = Vec::new();
        let mut i: usize = 0;
        while i < self.sequence.len()
            invariant
                i <= self.sequence@.len(),
                flow_valid(self.sequence@.subrange(0, i as int)),
                rows(texts@) == numerals(flow_numbers(self.sequence@.subrange(0, i as int))),
            decreases self.sequence.len() - i,
        {
            let ghost done = self.sequence@.subrange(0, i as int);
            let ghost next = self.sequence@.subrange(0, i + 1);
            assert(next.drop_last() =~= done);
            assert(next.last() == self.sequence@[i as int]);
            let numbers = match self.sequence[i].to_expression() {
                Ok(numbers) => numbers,
                Err(e) => {
                    return Err(e);
                },
            };
            let mut k: usize = 0;
            while k < numbers.len()
                invariant
                    k <= numbers@.len(),
                    rows(texts@) == numerals(flow_numbers(done) + numbers@.subrange(0, k as int)),
                decreases numbers.len() - k,
            {
                let ghost before = rows(texts@);
                let mut numeral: Vec<char> = Vec::new();
                push_decimal(&mut numeral, numbers[k] as u64);
                texts.push(numeral);
                assert(rows(texts@) =~= before.push(decimal(numbers@[k as int] as nat)));
                k += 1;
                assert(rows(texts@) =~= numerals(
                    flow_numbers(done) + numbers@.subrange(0, k as int),
                ));
            }
            assert(numbers@.subrange(0, k as int) =~= numbers@);
            i += 1;
            assert forall|j: int| 0 <= j < next.len() implies step_valid(#[trigger] next[j]) by {
                if j < next.len() - 1 {
                    assert(next[j] == done[j]);
                }
            }
        }
        assert(self.sequence@.subrange(0, i as int) =~= self.sequence@);
        let comma = chars_of(",");
        let flow = join_chars(&texts, comma.as_slice());
        let mut args: Vec<MethodArg> = Vec::new();
        args.push(MethodArg::Int(self.count as i32));
        args.push(MethodArg::Int(self.action.val()));
        args.push(MethodArg::String(text_of(flow.as_slice())));
        assert(args_view(args@) =~= flow_args(*self));
        Ok(args)
    }
}

impl<'a, 'b> Scene<'a, 'b> {
    /// The word for the kind of this scene.
    pub fn val(&self) -> (word: &'static str)
        ensures
            word@ == scene_name(*self),
    {
        match self {
            Scene::Color(_, _) => "color",
            Scene::HSV(_, _) => "hsv",
            Scene::Ct(_, _) => "ct",
            Scene::Cf(_) => "cf",
            Scene::AutoDelayOff(_, _) => "auto_delay_off",
        }
    }

    /// The arguments that set this scene, or `BadRequest` where it may not
    /// be sent.
    pub fn params(&self) -> (args: Result<Vec<MethodArg>, MethodCallError>)
        ensures
            match args {
                Ok(v) => scene_valid(*self) && args_view(v@) == scene_args(*self),
                Err(e) => !scene_valid(*self) && e@ is BadRequest,
            },
    {
        let mut args: Vec<MethodArg> = Vec::new();
        args.push(MethodArg::String(self.val().to_owned()));
        match self {
            Scene::Color(rgb, brightness) => {
                if *brightness > MAX_BRIGHTNESS {
                    return Err(MethodCallError::BadRequest);
                }
                args.push(MethodArg::Int(rgb.to_u32() as i32));
                args.push(MethodArg::Int(*brightness as i32));
            },
            Scene::HSV(hsv, brightness) => {
                if !hsv.validate() || *brightness > MAX_BRIGHTNESS {
                    return Err(MethodCallError::BadRequest);
                }
                args.push(MethodArg::Int(hsv.hue as i32));
                args.push(MethodArg::Int(hsv.saturation as i32));
                args.push(MethodArg::Int(*brightness as i32));
            },
            Scene::Ct(ct, brightness) => {
                if *ct < CT_MIN || *ct > CT_MAX || *brightness > MAX_BRIGHTNESS {
                    return Err(MethodCallError::BadRequest);
                }
                args.push(MethodArg::Int(*ct as i32));
                args.push(MethodArg::Int(*brightness as i32));
            },
            Scene::Cf(cf) => {
                let mut flow = match cf.params() {
                    Ok(flow) => flow,
                    Err(e) => {
                        return Err(e);
                    },
                };
                let ghost head = args@;
                let ghost tail = flow@;
                args.append(&mut flow);
                assert(args_view(head + tail) =~= args_view(head) + args_view(tail));
            },
            Scene::AutoDelayOff(brightness, duration_min) => {
                if *duration_min < MIN_AUTO_DELAY_OFF_MINUTES as u16 {
                    return Err(MethodCallError::BadRequest);
                }
                if *brightness > MAX_BRIGHTNESS {
                    return Err(MethodCallError::BadRequest);
                }
                args.push(MethodArg::Int(*brightness as i32));
                args.push(MethodArg::Int(*duration_min as i32));
            },
        }
        assert(args_view(args@) =~= scene_args(*self));
        Ok(args)
    }
}

/// The two arguments that describe a smooth transition of `millis`
/// milliseconds, or `BadRequest` where such a transition may not be sent.
pub fn smooth_args(millis: u128) -> (args: Result<Vec<MethodArg>, MethodCallError>)
    ensures
        built(args, smooth_valid(millis as nat), smooth_args_of(millis as nat)),
{
    if millis < MINIMUM_TRANSITION_DURATION || millis > 0x7FFF_FFFF {
        return Err(MethodCallError::BadRequest);
    }
    let mut args: Vec<MethodArg> = Vec::new();
    args.push(MethodArg::String("smooth".to_owned()));
    args.push(MethodArg::Int(millis as i32));
    assert(args_view(args@) =~= smooth_args_of(millis as nat));
    Ok(args)
}

impl TransitionMode {
    /// The two arguments that describe this transition, or `BadRequest`
    /// where it may not be sent.
    pub fn to_method_args(&self) -> (args: Result<Vec<MethodArg>, MethodCallError>)
        ensures
            built(args, transition_valid(*self), transition_args(*self)),
    {
        match self {
            TransitionMode::Sudden => {
                let mut args: Vec<MethodArg> = Vec::new();
                args.push(MethodArg::String("sudden".to_owned()));
                args.push(MethodArg::Int(50));
                assert(args_view(args@) =~= transition_args(*self));
                Ok(args)
            },
            TransitionMode::Smooth(d) => smooth_args(whole_millis(d)),
        }
    }
}

/// The arguments of a query for properties: their names.
pub open spec fn prop_args(props: Seq<&str>) -> Seq<Arg> {
    props.map_values(|prop: &str| Arg::Text(prop@))
}

/// Whether a colour temperature may be sent with a transition.
pub open spec fn ct_abx_valid(ct_value: u16, mode: TransitionMode) -> bool {
    CT_MIN <= ct_value <= CT_MAX && transition_valid(mode)
}

/// The arguments that set a colour temperature.
pub open spec fn ct_abx_args(ct_value: u16, mode: TransitionMode) -> Seq<Arg> {
    seq![Arg::Int(ct_value as i32)] + transition_args(mode)
}

/// The arguments that set a colour.
pub open spec fn rgb_args(rgb: RGB, mode: TransitionMode) -> Seq<Arg> {
    seq![Arg::Int(packed(rgb) as i32)] + transition_args(mode)
}

/// Whether hue and saturation may be sent with a transition.
pub open spec fn hsv_valid(hsv: HSV, mode: TransitionMode) -> bool {
    hsv.hue <= MAX_HUE && hsv.saturation <= MAX_SATURATION && transition_valid(mode)
}

/// The arguments that set hue and saturation.
pub open spec fn hsv_args(hsv: HSV, mode: TransitionMode) -> Seq<Arg> {
    seq![Arg::Int(hsv.hue as i32), Arg::Int(hsv.saturation as i32)] + transition_args(mode)
}

/// Whether a brightness may be sent with a transition.
pub open spec fn bright_valid(brightness: u8, mode: TransitionMode) -> bool {
    brightness <= MAX_BRIGHTNESS && transition_valid(mode)
}

/// The arguments that set a brightness.
pub open spec fn bright_args(brightness: u8, mode: TransitionMode) -> Seq<Arg> {
    seq![Arg::Int(brightness as i32)] + transition_args(mode)
}

/// The arguments that switch a device: the power state, the transition,
/// and the power mode where one is given.
pub open spec fn power_args(
    power: Power,
    mode: TransitionMode,
    power_mode: Option<PowerMode>,
) -> Seq<Arg> {
    seq![Arg::Text(power_name(power))] + transition_args(mode) + match power_mode {
        Some(pm) => seq![Arg::Int(power_mode_code(pm))],
        None => Seq::empty(),
    }
}

/// The arguments that set a timer: its kind, which is 0, and its minutes.
pub open spec fn cron_args(cron: Cron) -> Seq<Arg> {
    seq![Arg::Int(0), Arg::Int(cron.minutes as i32)]
}

/// The argument that names a kind of timer, which is 0.
pub open spec fn cron_type_args(cron_type: CronType) -> Seq<Arg> {
    seq![Arg::Int(0)]
}

/// The arguments of an adjustment: its direction, then the property.
pub open spec fn adjust_args(prop: AdjustableProp, action: AdjustAction) -> Seq<Arg> {
    seq![Arg::Text(adjust_name(action)), Arg::Text(prop_name(prop))]
}

/// Whether a music mode may be sent: the port of the server fits in 32
/// signed bits.
pub open spec fn music_valid(mode: MusicMode) -> bool {
    match mode {
        MusicMode::On(_, port) => port <= i32::MAX,
        MusicMode::Off => true,
    }
}

/// The arguments that switch the music mode: 1, the host and the port of
/// the server to switch it on; 0 to switch it off.
pub open spec fn music_args(mode: MusicMode) -> Seq<Arg> {
    match mode {
        MusicMode::On(host, port) => seq![
            Arg::Int(1),
            Arg::Text(host@),
            Arg::Int(port as i32),
        ],
        MusicMode::Off => seq![Arg::Int(0)],
    }
}

/// The argument that names a device.
pub open spec fn name_args(name: Seq<char>) -> Seq<Arg> {
    seq![Arg::Text(name)]
}

/// Whether a list of arguments was built as `valid` and `args` say: the
/// arguments where they may be sent, `BadRequest` where they may not.
pub open spec fn built(
    result: Result<Vec<MethodArg>, MethodCallError>,
    valid: bool,
    args: Seq<Arg>,
) -> bool {
    match result {
        Ok(v) => valid && args_view(v@) == args,
        Err(e) => !valid && e@ is BadRequest,
    }
}

/// Puts `head` in front of the arguments of a transition.
fn with_transition(head: Vec<MethodArg>, mode: &TransitionMode) -> (result: Result<
    Vec<MethodArg>,
    MethodCallError,
>)
    ensures
        built(result, transition_valid(*mode), args_view(head@) + transition_args(*mode)),
{
    let mut args = head;
    let mut tail = match mode.to_method_args() {
        Ok(tail) => tail,
        Err(e) => {
            return Err(e);
        },
    };
    let ghost first = args@;
    let ghost second = tail@;
    args.append(&mut tail);
    assert(args_view(first + second) =~= args_view(first) + args_view(second));
    Ok(args)
}

/// Builds the arguments of a query for properties; at least one property
/// must be asked for.
pub fn build_prop_args(props: &[&str]) -> (result: Result<Vec<MethodArg>, MethodCallError>)
    ensures
        built(result, props@.len() > 0, prop_args(props@)),
{
    if props.len() == 0 {
        return Err(MethodCallError::BadRequest);
    }
    let mut args: Vec<MethodArg> = Vec::new();
    let mut i: usize = 0;
    while i < props.len()
        invariant
            i <= props@.len(),
            args_view(args@) == prop_args(props@).subrange(0, i as int),
        decreases props.len() - i,
    {
        let ghost before = args_view(args@);
        args.push(MethodArg::String(props[i].to_owned()));
        assert(args_view(args@) =~= before.push(Arg::Text(props@[i as int]@)));
        i += 1;
        assert(args_view(args@) =~= prop_args(props@).subrange(0, i as int));
    }
    assert(prop_args(props@).subrange(0, i as int) =~= prop_args(props@));
    Ok(args)
}

/// Builds the arguments that set a colour temperature.
pub fn build_ct_abx_args(ct_value: u16, mode: &TransitionMode) -> (result: Result<
    Vec<MethodArg>,
    MethodCallError,
>)
    ensures
        built(result, ct_abx_valid(ct_value, *mode), ct_abx_args(ct_value, *mode)),
{
    if ct_value > CT_MAX || ct_value < CT_MIN {
        return Err(MethodCallError::BadRequest);
    }
    let mut head: Vec<MethodArg> = Vec::new();
    head.push(MethodArg::Int(ct_value as i32));
    assert(args_view(head@) =~= seq![Arg::Int(ct_value as i32)]);
    with_transition(head, mode)
}

/// Builds the arguments that set a colour.
pub fn build_rgb_args(rgb: &RGB, mode: &TransitionMode) -> (result: Result<
    Vec<MethodArg>,
    MethodCallError,
>)
    ensures
        built(result, transition_valid(*mode), rgb_args(*rgb, *mode)),
{
    let mut head: Vec<MethodArg> = Vec::new();
    head.push(MethodArg::Int(rgb.to_u32() as i32));
    assert(args_view(head@) =~= seq![Arg::Int(packed(*rgb) as i32)]);
    with_transition(head, mode)
}

/// Builds the arguments that set hue and saturation.
pub fn build_hsv_args(hsv: &HSV, mode: &TransitionMode) -> (result: Result<
    Vec<MethodArg>,
    MethodCallError,
>)
    ensures
        built(result, hsv_valid(*hsv, *mode), hsv_args(*hsv, *mode)),
{
    if !hsv.validate() {
        return Err(MethodCallError::BadRequest);
    }
    let mut head: Vec<MethodArg> = Vec::new();
    head.push(MethodArg::Int(hsv.hue as i32));
    head.push(MethodArg::Int(hsv.saturation as i32));
    assert(args_view(head@) =~= seq![
        Arg::Int(hsv.hue as i32),
        Arg::Int(hsv.saturation as i32),
    ]);
    with_transition(head, mode)
}

/// Builds the arguments that set a brightness.
pub fn build_bright_args(brightness: u8, mode: &TransitionMode) -> (result: Result<
    Vec<MethodArg>,
    MethodCallError,
>)
    ensures
        built(result, bright_valid(brightness, *mode), bright_args(brightness, *mode)),
{
    if brightness > MAX_BRIGHTNESS {
        return Err(MethodCallError::BadRequest);
    }
    let mut head: Vec<MethodArg> = Vec::new();
    head.push(MethodArg::Int(brightness as i32));
    assert(args_view(head@) =~= seq![Arg::Int(brightness as i32)]);
    with_transition(head, mode)
}

/// Builds the arguments that switch a device.
pub fn build_power_args(
    power: Power,
    mode: &TransitionMode,
    power_mode: Option<PowerMode>,
) -> (result: Result<Vec<MethodArg>, MethodCallError>)
    ensures
        built(result, transition_valid(*mode), power_args(power, *mode, power_mode)),
{
    let mut head: Vec<MethodArg> = Vec::new();
    head.push(MethodArg::String(power.as_str().to_owned()));
    assert(args_view(head@) =~= seq![Arg::Text(power_name(power))]);
    let mut args = match with_transition(head, mode) {
        Ok(args) => args,
        Err(e) => {
            return Err(e);
        },
    };
    if let Some(pm) = power_mode {
        let ghost before = args_view(args@);
        args.push(MethodArg::Int(pm.val()));
        assert(args_view(args@) =~= before + seq![Arg::Int(power_mode_code(pm))]);
    } else {
        assert(args_view(args@) =~= args_view(args@) + Seq::<Arg>::empty());
    }
    Ok(args)
}

/// Builds the arguments that set a timer.
pub fn build_cron_args(cron: &Cron) -> (args: Vec<MethodArg>)
    ensures
        args_view(args@) == cron_args(*cron),
{
    let mut args: Vec<MethodArg> = Vec::new();
    args.push(MethodArg::Int(0));
    args.push(MethodArg::Int(cron.minutes as i32));
    assert(args_view(args@) =~= cron_args(*cron));
    args
}

/// Builds the argument that names a kind of timer.
pub fn build_cron_type_args(cron_type: &CronType) -> (args: Vec<MethodArg>)
    ensures
        args_view(args@) == cron_type_args(*cron_type),
{
    let mut args: Vec<MethodArg> = Vec::new();
    args.push(MethodArg::Int(0));
    assert(args_view(args@) =~= cron_type_args(*cron_type));
    args
}

/// Builds the arguments of an adjustment.
pub fn build_adjust_args(prop: &AdjustableProp, action: &AdjustAction) -> (args: Vec<MethodArg>)
    ensures
        args_view(args@) == adjust_args(*prop, *action),
{
    let mut args: Vec<MethodArg> = Vec::new();
    args.push(MethodArg::String(action.as_str().to_owned()));
    args.push(MethodArg::String(prop.as_str().to_owned()));
    assert(args_view(args@) =~= adjust_args(*prop, *action));
    args
}

/// Builds the arguments that switch the music mode.
pub fn build_music_args(mode: MusicMode) -> (result: Result<Vec<MethodArg>, MethodCallError>)
    ensures
        built(result, music_valid(mode), music_args(mode)),
{
    let mut args: Vec<MethodArg> = Vec::new();
    match mode {
        MusicMode::On(host, port) => {
            if port > 0x7FFF_FFFF {
                return Err(MethodCallError::BadRequest);
            }
            args.push(MethodArg::Int(1));
            args.push(MethodArg::String(host.to_owned()));
            args.push(MethodArg::Int(port as i32));
        },
        MusicMode::Off => {
            args.push(MethodArg::Int(0));
        },
    }
    assert(args_view(args@) =~= music_args(mode));
    Ok(args)
}

/// The arguments of a call that takes none.
pub fn no_args() -> (args: Vec<MethodArg>)
    ensures
        args_view(args@) == Seq::<Arg>::empty(),
{
    let args: Vec<MethodArg> = Vec::new();
    assert(args_view(args@) =~= Seq::<Arg>::empty());
    args
}

/// Builds the argument that names a device.
pub fn build_name_args(name: &str) -> (args: Vec<MethodArg>)
    ensures
        args_view(args@) == name_args(name@),
{
    let mut args: Vec<MethodArg> = Vec::new();
    args.push(MethodArg::String(name.to_owned()));
    assert(args_view(args@) =~= name_args(name@));
    args
}

} // verus!
