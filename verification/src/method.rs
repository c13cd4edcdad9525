//! The methods of the control protocol and their wire names.

use vstd::prelude::*;
use crate::text::chars_of;
use crate::text::same_chars;

verus! {

/// A method that a device may support.
#[derive(Debug, Clone, Copy, Hash, PartialEq, Eq, Structural)]
pub enum Method {
    GetProp,
    SetPower,
    CronAdd,
    CronGet,
    CronDel,
    SetRgb,
    SetHsv,
    SetCtAbx,
    StartCf,
    StopCf,
    SetScene,
    SetDefault,
    SetBright,
    SetAdjust,
    Toggle,
    AdjustBright,
    AdjustCt,
    AdjustColor,
    BgSetRgb,
    BgSetHsv,
    BgSetCtAbx,
    BgStartCf,
    BgStopCf,
    BgSetScene,
    BgSetDefault,
    BgSetBright,
    BgSetAdjust,
    BgToggle,
    BgAdjustBright,
    BgAdjustCt,
    BgAdjustColor,
    BgSetPower,
    SetMusic,
    SetName,
    DevToggle,
}

/// How many methods the protocol has.
pub const METHOD_COUNT: usize = 35;

/// The name under which a method goes over the wire.
pub open spec fn method_name(method: Method) -> Seq<char> {
    match method {
        Method::GetProp => "get_prop"@,
        Method::SetPower => "set_power"@,
        Method::CronAdd => "cron_add"@,
        Method::CronGet => "cron_get"@,
        Method::CronDel => "cron_del"@,
        Method::SetRgb => "set_rgb"@,
        Method::SetHsv => "set_hsv"@,
        Method::SetCtAbx => "set_ct_abx"@,
        Method::StartCf => "start_cf"@,
        Method::StopCf => "stop_cf"@,
        Method::SetScene => "set_scene"@,
        Method::SetDefault => "set_default"@,
        Method::SetBright => "set_bright"@,
        Method::SetAdjust => "set_adjust"@,
        Method::Toggle => "toggle"@,
        Method::AdjustBright => "adjust_bright"@,
        Method::AdjustCt => "adjust_ct"@,
        Method::AdjustColor => "adjust_color"@,
        Method::BgSetRgb => "bg_set_rgb"@,
        Method::BgSetHsv => "bg_set_hsv"@,
        Method::BgSetCtAbx => "bg_set_ct_abx"@,
        Method::BgStartCf => "bg_start_cf"@,
        Method::BgStopCf => "bg_stop_cf"@,
        Method::BgSetScene => "bg_set_scene"@,
        Method::BgSetDefault => "bg_set_default"@,
        Method::BgSetBright => "bg_set_bright"@,
        Method::BgSetAdjust => "bg_set_adjust"@,
        Method::BgToggle => "bg_toggle"@,
        Method::BgAdjustBright => "bg_adjust_bright"@,
        Method::BgAdjustCt => "bg_adjust_ct"@,
        Method::BgAdjustColor => "bg_adjust_color"@,
        Method::BgSetPower => "bg_set_power"@,
        Method::SetMusic => "set_music"@,
        Method::SetName => "set_name"@,
        Method::DevToggle => "dev_toggle"@,
    }
}

/// The place of a method in the list of all methods.
pub open spec fn method_index(method: Method) -> int {
    match method {
        Method::GetProp => 0,
        Method::SetPower => 1,
        Method::CronAdd => 2,
        Method::CronGet => 3,
        Method::CronDel => 4,
        Method::SetRgb => 5,
        Method::SetHsv => 6,
        Method::SetCtAbx => 7,
        Method::StartCf => 8,
        Method::StopCf => 9,
        Method::SetScene => 10,
        Method::SetDefault => 11,
        Method::SetBright => 12,
        Method::SetAdjust => 13,
        Method::Toggle => 14,
        Method::AdjustBright => 15,
        Method::AdjustCt => 16,
        Method::AdjustColor => 17,
        Method::BgSetRgb => 18,
        Method::BgSetHsv => 19,
        Method::BgSetCtAbx => 20,
        Method::BgStartCf => 21,
        Method::BgStopCf => 22,
        Method::BgSetScene => 23,
        Method::BgSetDefault => 24,
        Method::BgSetBright => 25,
        Method::BgSetAdjust => 26,
        Method::BgToggle => 27,
        Method::BgAdjustBright => 28,
        Method::BgAdjustCt => 29,
        Method::BgAdjustColor => 30,
        Method::BgSetPower => 31,
        Method::SetMusic => 32,
        Method::SetName => 33,
        Method::DevToggle => 34,
    }
}

/// Whether some method goes under the name `word`.
pub open spec fn is_method_name(word: Seq<char>) -> bool {
    exists|method: Method| method_name(method) == word
}

/// The method that goes under the name `word`, if there is one.
pub open spec fn method_named(word: Seq<char>) -> Option<Method> {
    if is_method_name(word) {
        Some(choose|method: Method| method_name(method) == word)
    } else {
        None
    }
}

/// No two methods share a name.
pub proof fn lemma_method_names_differ(a: Method, b: Method)
    ensures
        method_name(a) == method_name(b) ==> a == b,
{
    reveal_strlit("get_prop");
    reveal_strlit("set_power");
    reveal_strlit("cron_add");
    reveal_strlit("cron_get");
    reveal_strlit("cron_del");
    reveal_strlit("set_rgb");
    reveal_strlit("set_hsv");
    reveal_strlit("set_ct_abx");
    reveal_strlit("start_cf");
    reveal_strlit("stop_cf");
    reveal_strlit("set_scene");
    reveal_strlit("set_default");
    reveal_strlit("set_bright");
    reveal_strlit("set_adjust");
    reveal_strlit("toggle");
    reveal_strlit("adjust_bright");
    reveal_strlit("adjust_ct");
    reveal_strlit("adjust_color");
    reveal_strlit("bg_set_rgb");
    reveal_strlit("bg_set_hsv");
    reveal_strlit("bg_set_ct_abx");
    reveal_strlit("bg_start_cf");
    reveal_strlit("bg_stop_cf");
    reveal_strlit("bg_set_scene");
    reveal_strlit("bg_set_default");
    reveal_strlit("bg_set_bright");
    reveal_strlit("bg_set_adjust");
    reveal_strlit("bg_toggle");
    reveal_strlit("bg_adjust_bright");
    reveal_strlit("bg_adjust_ct");
    reveal_strlit("bg_adjust_color");
    reveal_strlit("bg_set_power");
    reveal_strlit("set_music");
    reveal_strlit("set_name");
    reveal_strlit("dev_toggle");
    if method_name(a) == method_name(b) && a != b {
        // Equal names have equal lengths and equal characters; the places
        // below tell every two names of one length apart.
        assert(method_name(a).len() == method_name(b).len());
        assert(method_name(a)[0] == method_name(b)[0]);
        assert(method_name(a)[3] == method_name(b)[3]);
        assert(method_name(a)[4] == method_name(b)[4]);
        assert(method_name(a)[5] == method_name(b)[5]);
        assert(method_name(a)[7] == method_name(b)[7]);
        assert(method_name(a)[8] == method_name(b)[8]);
    }
}

impl Method {
    /// Every method, each once.
    pub fn all() -> (list: Vec<Method>)
        ensures
            list@.len() == METHOD_COUNT,
            forall|method: Method| #[trigger] list@[method_index(method)] == method,
    {
        vec![
            Method::GetProp,
            Method::SetPower,
            Method::CronAdd,
            Method::CronGet,
            Method::CronDel,
            Method::SetRgb,
            Method::SetHsv,
            Method::SetCtAbx,
            Method::StartCf,
            Method::StopCf,
            Method::SetScene,
            Method::SetDefault,
            Method::SetBright,
            Method::SetAdjust,
            Method::Toggle,
            Method::AdjustBright,
            Method::AdjustCt,
            Method::AdjustColor,
            Method::BgSetRgb,
            Method::BgSetHsv,
            Method::BgSetCtAbx,
            Method::BgStartCf,
            Method::BgStopCf,
            Method::BgSetScene,
            Method::BgSetDefault,
            Method::BgSetBright,
            Method::BgSetAdjust,
            Method::BgToggle,
            Method::BgAdjustBright,
            Method::BgAdjustCt,
            Method::BgAdjustColor,
            Method::BgSetPower,
            Method::SetMusic,
            Method::SetName,
            Method::DevToggle,
        ]
    }

    /// The name under which this method goes over the wire.
    pub fn name(&self) -> (word: &'static str)
        ensures
            word@ == method_name(*self),
    {
        match self {
            Method::GetProp => "get_prop",
            Method::SetPower => "set_power",
            Method::CronAdd => "cron_add",
            Method::CronGet => "cron_get",
            Method::CronDel => "cron_del",
            Method::SetRgb => "set_rgb",
            Method::SetHsv => "set_hsv",
            Method::SetCtAbx => "set_ct_abx",
            Method::StartCf => "start_cf",
            Method::StopCf => "stop_cf",
            Method::SetScene => "set_scene",
            Method::SetDefault => "set_default",
            Method::SetBright => "set_bright",
            Method::SetAdjust => "set_adjust",
            Method::Toggle => "toggle",
            Method::AdjustBright => "adjust_bright",
            Method::AdjustCt => "adjust_ct",
            Method::AdjustColor => "adjust_color",
            Method::BgSetRgb => "bg_set_rgb",
            Method::BgSetHsv => "bg_set_hsv",
            Method::BgSetCtAbx => "bg_set_ct_abx",
            Method::BgStartCf => "bg_start_cf",
            Method::BgStopCf => "bg_stop_cf",
            Method::BgSetScene => "bg_set_scene",
            Method::BgSetDefault => "bg_set_default",
            Method::BgSetBright => "bg_set_bright",
            Method::BgSetAdjust => "bg_set_adjust",
            Method::BgToggle => "bg_toggle",
            Method::BgAdjustBright => "bg_adjust_bright",
            Method::BgAdjustCt => "bg_adjust_ct",
            Method::BgAdjustColor => "bg_adjust_color",
            Method::BgSetPower => "bg_set_power",
            Method::SetMusic => "set_music",
            Method::SetName => "set_name",
            Method::DevToggle => "dev_toggle",
        }
    }

    /// Reads a method from its wire name. Names are matched exactly: a name
    /// in another case, or with space around it, is no method.
    pub fn parse(value: &str) -> (method: Option<Method>)
        ensures
            method == method_named(value@),
    {
        let chars = chars_of(value);
        Method::parse_chars(chars.as_slice())
    }

    /// Reads a method from the characters of its wire name.
    pub fn parse_chars(value: &[char]) -> (method: Option<Method>)
        ensures
            method == method_named(value@),
    {
        let chars = value;
        let list = Method::all();
        let mut i: usize = 0;
        while i < list.len()
            invariant
                i <= list@.len() == METHOD_COUNT,
                chars@ == value@,
                forall|method: Method| #[trigger] list@[method_index(method)] == method,
                forall|k: int| 0 <= k < i ==> method_name(#[trigger] list@[k]) != value@,
            decreases list.len() - i,
        {
            let candidate = list[i];
            let name = chars_of(candidate.name());
            if same_chars(chars, name.as_slice()) {
                proof {
                    lemma_method_round_trip(candidate);
                }
                return Some(candidate);
            }
            i += 1;
        }
        assert forall|method: Method| method_name(method) != value@ by {
            assert(list@[method_index(method)] == method);
        }
        None
    }
}

/// Reading the wire name of a method gives that method back.
pub proof fn lemma_method_round_trip(method: Method)
    ensures
        method_named(method_name(method)) == Some(method),
{
    assert(is_method_name(method_name(method)));
    let found = choose|m: Method| method_name(m) == method_name(method);
    lemma_method_names_differ(found, method);
}

/// A method name holds lower-case letters and underscores only.
pub proof fn lemma_method_name_letters(method: Method, i: int)
    requires
        0 <= i < method_name(method).len(),
    ensures
        method_name(method)[i] == '_' || 'a' <= method_name(method)[i] <= 'z',
{
    reveal_strlit("get_prop");
    reveal_strlit("set_power");
    reveal_strlit("cron_add");
    reveal_strlit("cron_get");
    reveal_strlit("cron_del");
    reveal_strlit("set_rgb");
    reveal_strlit("set_hsv");
    reveal_strlit("set_ct_abx");
    reveal_strlit("start_cf");
    reveal_strlit("stop_cf");
    reveal_strlit("set_scene");
    reveal_strlit("set_default");
    reveal_strlit("set_bright");
    reveal_strlit("set_adjust");
    reveal_strlit("toggle");
    reveal_strlit("adjust_bright");
    reveal_strlit("adjust_ct");
    reveal_strlit("adjust_color");
    reveal_strlit("bg_set_rgb");
    reveal_strlit("bg_set_hsv");
    reveal_strlit("bg_set_ct_abx");
    reveal_strlit("bg_start_cf");
    reveal_strlit("bg_stop_cf");
    reveal_strlit("bg_set_scene");
    reveal_strlit("bg_set_default");
    reveal_strlit("bg_set_bright");
    reveal_strlit("bg_set_adjust");
    reveal_strlit("bg_toggle");
    reveal_strlit("bg_adjust_bright");
    reveal_strlit("bg_adjust_ct");
    reveal_strlit("bg_adjust_color");
    reveal_strlit("bg_set_power");
    reveal_strlit("set_music");
    reveal_strlit("set_name");
    reveal_strlit("dev_toggle");
}

} // verus!
