//! The dispatcher: how a call is carried out, and the commands of the
//! control protocol.

use vstd::prelude::*;
use vstd::utf8::encode_utf8;
use crate::arguments::Arg;
use crate::arguments::MethodArg;
use crate::arguments::adjust_args;
use crate::arguments::args_view;
use crate::arguments::bright_args;
use crate::arguments::bright_valid;
use crate::arguments::build_adjust_args;
use crate::arguments::build_bright_args;
use crate::arguments::build_cron_args;
use crate::arguments::build_cron_type_args;
use crate::arguments::build_ct_abx_args;
use crate::arguments::build_hsv_args;
use crate::arguments::build_music_args;
use crate::arguments::build_name_args;
use crate::arguments::build_power_args;
use crate::arguments::build_prop_args;
use crate::arguments::build_rgb_args;
use crate::arguments::cron_args;
use crate::arguments::cron_type_args;
use crate::arguments::ct_abx_args;
use crate::arguments::ct_abx_valid;
use crate::arguments::flow_args;
use crate::arguments::flow_valid;
use crate::arguments::hsv_args;
use crate::arguments::hsv_valid;
use crate::arguments::message;
use crate::arguments::music_args;
use crate::arguments::music_valid;
use crate::arguments::name_args;
use crate::arguments::no_args;
use crate::arguments::power_args;
use crate::arguments::prop_args;
use crate::arguments::rgb_args;
use crate::arguments::scene_args;
use crate::arguments::scene_valid;
use crate::arguments::transition_valid;
use crate::connection::AdjustAction;
use crate::connection::AdjustableProp;
use crate::connection::BulbConnection;
use crate::connection::ColorFlow;
use crate::connection::Cron;
use crate::connection::CronResponse;
use crate::connection::CronType;
use crate::connection::asked;
use crate::connection::Exchange;
use crate::connection::Failure;
use crate::connection::IdSource;
use crate::connection::MethodCallError;
use crate::connection::MethodCallResponse;
use crate::connection::MusicMode;
use crate::connection::PowerMode;
use crate::connection::REPLY_LIMIT;
use crate::connection::Scene;
use crate::connection::StringVecResponse;
use crate::connection::TransitionMode;
use crate::connection::Transport;
use crate::lightmode::HSV;
use crate::method::Method;
use crate::power::Power;
use crate::reply::agrees;
use crate::reply::decode_response;
use crate::reply::outcome;
use crate::rgb::RGB;

verus! {

/// Whether a call was turned down before anything was done: the failure is
/// the given one, and the dispatcher, its transport, its source of
/// identifiers and its history are as they were.
pub open spec fn turned_down<C, R, T>(
    before: BulbConnection<C, R>,
    after: BulbConnection<C, R>,
    result: Result<T, MethodCallError>,
    failure: Failure,
) -> bool {
    &&& result matches Err(e) && e@ == failure
    &&& after == before
}

/// The part of a reply that is looked at: its first `REPLY_LIMIT` bytes.
pub open spec fn within_limit(reply: Seq<u8>) -> Seq<u8> {
    if reply.len() > REPLY_LIMIT {
        reply.subrange(0, REPLY_LIMIT as int)
    } else {
        reply
    }
}

/// Whether `after` continues `before` by one exchange of a call: the
/// identifier `id` was drawn; the request `line` was written once; if the
/// transport took it, one read followed. Where the write or the read failed,
/// the result is the transport error that it gave. Else the result is what
/// the call makes of the bytes that were read, as far as they are looked at.
pub open spec fn exchanged<T: MethodCallResponse>(
    before: Seq<Exchange>,
    after: Seq<Exchange>,
    id: i16,
    line: Seq<u8>,
    result: Result<T, MethodCallError>,
) -> bool {
    let drawn = before.push(Exchange::Drawn { id });
    let written = drawn.push(Exchange::Sent { bytes: line, failure: None });
    ||| {
        &&& result matches Err(MethodCallError::IOError(e))
        &&& after == drawn.push(Exchange::Sent { bytes: line, failure: Some(e) })
    }
    ||| {
        &&& result matches Err(MethodCallError::IOError(e))
        &&& after == written.push(Exchange::Received { reply: Err(e) })
    }
    ||| exists|reply: Seq<u8>|
        {
            &&& after == written.push(Exchange::Received { reply: Ok(reply) })
            &&& #[trigger] agrees(result, outcome::<T>(id, within_limit(reply)))
        }
}

/// What holds after a call of `method` with arguments that may be sent.
///
/// A method that the device does not support is turned down as unsupported.
/// Otherwise, where the lock on the transport is not to be had, the call is
/// turned down with a synchronization error. Otherwise an identifier was
/// drawn, and the request line of that identifier, the method and the
/// arguments was exchanged for a result.
pub open spec fn call_settled<C, R, T: MethodCallResponse>(
    before: BulbConnection<C, R>,
    after: BulbConnection<C, R>,
    method: Method,
    args: Seq<Arg>,
    result: Result<T, MethodCallError>,
) -> bool {
    if before.device().capabilities().contains(method) {
        &&& after.device() == before.device()
        &&& {
            ||| turned_down(before, after, result, Failure::SynchronizationError)
            ||| exists|id: i16| #[trigger]
                exchanged(
                    before.history(),
                    after.history(),
                    id,
                    encode_utf8(message(id, method, args)),
                    result,
                )
        }
    } else {
        turned_down(before, after, result, Failure::UnsupportedMethod)
    }
}

/// What holds after a command: where its arguments may not be sent it is
/// turned down as a bad request, whatever the device supports; where they
/// may, the call of `method` with `args` is settled.
pub open spec fn carried_out<C, R, T: MethodCallResponse>(
    before: BulbConnection<C, R>,
    after: BulbConnection<C, R>,
    method: Method,
    valid: bool,
    args: Seq<Arg>,
    result: Result<T, MethodCallError>,
) -> bool {
    if valid {
        call_settled(before, after, method, args, result)
    } else {
        turned_down(before, after, result, Failure::BadRequest)
    }
}

impl<C: Transport, R: IdSource> BulbConnection<C, R> {
    /// Calls `method` with `args`: checks that the device supports it, takes
    /// the lock on the transport, draws an identifier, writes the request
    /// once, reads once, lets the lock go, and reads the reply for that
    /// identifier. Nothing is tried again.
    pub fn call_method<T: MethodCallResponse>(
        &mut self,
        method: Method,
        args: Vec<MethodArg>,
    ) -> (result: Result<T, MethodCallError>)
        ensures
            call_settled(*old(self), *final(self), method, args_view(args@), result),
    {
        if !self.supports(method) {
            return Err(MethodCallError::UnsupportedMethod);
        }
        let ghost wanted = args_view(args@);
        let got = self.exchange(method, args);
        let ghost noted = got;
        let (id, mut bytes) = match got {
            Ok(pair) => pair,
            Err(e) => {
                let result = Err(e);
                proof {
                    if !(noted matches Err(MethodCallError::SynchronizationError)) {
                        let id = choose|id: i16| #[trigger]
                            asked(
                                old(self).history(),
                                self.history(),
                                id,
                                encode_utf8(message(id, method, wanted)),
                                noted,
                            );
                        assert(exchanged(
                            old(self).history(),
                            self.history(),
                            id,
                            encode_utf8(message(id, method, wanted)),
                            result,
                        ));
                    }
                }
                return result;
            },
        };
        let ghost reply = bytes@;
        let ghost request = encode_utf8(message(id, method, wanted));
        proof {
            let drawn = choose|drawn: i16| #[trigger]
                asked(
                    old(self).history(),
                    self.history(),
                    drawn,
                    encode_utf8(message(drawn, method, wanted)),
                    noted,
                );
            assert(drawn == id);
        }
        if bytes.len() > REPLY_LIMIT {
            bytes.truncate(REPLY_LIMIT);
        }
        assert(bytes@ =~= within_limit(reply));
        let result = decode_response::<T>(id, bytes.as_slice());
        assert(agrees(result, outcome::<T>(id, within_limit(reply))));
        assert(exchanged(old(self).history(), self.history(), id, request, result));
        result
    }

    /// Calls `method` with the arguments that were built for it, or hands
    /// on the failure to build them.
    fn dispatch<T: MethodCallResponse>(
        &mut self,
        method: Method,
        args: Result<Vec<MethodArg>, MethodCallError>,
    ) -> (result: Result<T, MethodCallError>)
        ensures
            match args {
                Ok(v) => call_settled(*old(self), *final(self), method, args_view(v@), result),
                Err(e) => turned_down(*old(self), *final(self), result, e@),
            },
    {
        match args {
            Ok(args) => self.call_method(method, args),
            Err(e) => Err(e),
        }
    }

    /// Asks for the values of the properties `props`; a property that the
    /// device does not know comes back as an empty string.
    pub fn get_prop(
        &mut self,
        props: &[&str],
    ) -> (result: Result<StringVecResponse, MethodCallError>)
        ensures
            carried_out(
                *old(self),
                *final(self),
                Method::GetProp,
                props@.len() > 0,
                prop_args(props@),
                result,
            ),
    {
        self.dispatch(Method::GetProp, build_prop_args(props))
    }

    /// Sets the colour temperature, between `CT_MIN` and `CT_MAX` kelvin.
    pub fn set_ct_abx(
        &mut self,
        ct_value: u16,
        mode: TransitionMode,
    ) -> (result: Result<StringVecResponse, MethodCallError>)
        ensures
            carried_out(
                *old(self),
                *final(self),
                Method::SetCtAbx,
                ct_abx_valid(ct_value, mode),
                ct_abx_args(ct_value, mode),
                result,
            ),
    {
        self.dispatch(Method::SetCtAbx, build_ct_abx_args(ct_value, &mode))
    }

    /// Sets the colour.
    pub fn set_rgb(
        &mut self,
        rgb: &RGB,
        mode: TransitionMode,
    ) -> (result: Result<StringVecResponse, MethodCallError>)
        ensures
            carried_out(
                *old(self),
                *final(self),
                Method::SetRgb,
                transition_valid(mode),
                rgb_args(*rgb, mode),
                result,
            ),
    {
        self.dispatch(Method::SetRgb, build_rgb_args(rgb, &mode))
    }

    /// Sets hue and saturation.
    pub fn set_hsv(
        &mut self,
        hsv: &HSV,
        mode: TransitionMode,
    ) -> (result: Result<StringVecResponse, MethodCallError>)
        ensures
            carried_out(
                *old(self),
                *final(self),
                Method::SetHsv,
                hsv_valid(*hsv, mode),
                hsv_args(*hsv, mode),
                result,
            ),
    {
        self.dispatch(Method::SetHsv, build_hsv_args(hsv, &mode))
    }

    /// Sets the brightness, at most `MAX_BRIGHTNESS`.
    pub fn set_bright(
        &mut self,
        brightness: u8,
        mode: TransitionMode,
    ) -> (result: Result<StringVecResponse, MethodCallError>)
        ensures
            carried_out(
                *old(self),
                *final(self),
                Method::SetBright,
                bright_valid(brightness, mode),
                bright_args(brightness, mode),
                result,
            ),
    {
        self.dispatch(Method::SetBright, build_bright_args(brightness, &mode))
    }

    /// Switches the device on or off.
    pub fn set_power(
        &mut self,
        power: Power,
        trans_mode: TransitionMode,
        power_mode: Option<PowerMode>,
    ) -> (result: Result<StringVecResponse, MethodCallError>)
        ensures
            carried_out(
                *old(self),
                *final(self),
                Method::SetPower,
                transition_valid(trans_mode),
                power_args(power, trans_mode, power_mode),
                result,
            ),
    {
        self.dispatch(Method::SetPower, build_power_args(power, &trans_mode, power_mode))
    }

    /// Switches the device to the other power state.
    pub fn toggle(&mut self) -> (result: Result<StringVecResponse, MethodCallError>)
        ensures
            carried_out(
                *old(self),
                *final(self),
                Method::Toggle,
                true,
                Seq::empty(),
                result,
            ),
    {
        self.dispatch(Method::Toggle, Ok(no_args()))
    }

    /// Makes the current state the one that the device starts in.
    pub fn set_default(&mut self) -> (result: Result<StringVecResponse, MethodCallError>)
        ensures
            carried_out(
                *old(self),
                *final(self),
                Method::SetDefault,
                true,
                Seq::empty(),
                result,
            ),
    {
        self.dispatch(Method::SetDefault, Ok(no_args()))
    }

    /// Starts a colour flow.
    pub fn start_cf(
        &mut self,
        cf: &ColorFlow,
    ) -> (result: Result<StringVecResponse, MethodCallError>)
        ensures
            carried_out(
                *old(self),
                *final(self),
                Method::StartCf,
                flow_valid(cf.sequence@),
                flow_args(*cf),
                result,
            ),
    {
        self.dispatch(Method::StartCf, cf.params())
    }

    /// Stops the colour flow.
    pub fn stop_cf(&mut self) -> (result: Result<StringVecResponse, MethodCallError>)
        ensures
            carried_out(
                *old(self),
                *final(self),
                Method::StopCf,
                true,
                Seq::empty(),
                result,
            ),
    {
        self.dispatch(Method::StopCf, Ok(no_args()))
    }

    /// Puts the device in the state of `scene`.
    pub fn set_scene(
        &mut self,
        scene: &Scene,
    ) -> (result: Result<StringVecResponse, MethodCallError>)
        ensures
            carried_out(
                *old(self),
                *final(self),
                Method::SetScene,
                scene_valid(*scene),
                scene_args(*scene),
                result,
            ),
    {
        self.dispatch(Method::SetScene, scene.params())
    }

    /// Starts a timer.
    pub fn cron_add(&mut self, cron: &Cron) -> (result: Result<StringVecResponse, MethodCallError>)
        ensures
            carried_out(
                *old(self),
                *final(self),
                Method::CronAdd,
                true,
                cron_args(*cron),
                result,
            ),
    {
        self.dispatch(Method::CronAdd, Ok(build_cron_args(cron)))
    }

    /// Asks for the timers of the given kind.
    pub fn cron_get(
        &mut self,
        cron_type: &CronType,
    ) -> (result: Result<CronResponse, MethodCallError>)
        ensures
            carried_out(
                *old(self),
                *final(self),
                Method::CronGet,
                true,
                cron_type_args(*cron_type),
                result,
            ),
    {
        self.dispatch(Method::CronGet, Ok(build_cron_type_args(cron_type)))
    }

    /// Stops the timer of the given kind.
    pub fn cron_del(
        &mut self,
        cron_type: &CronType,
    ) -> (result: Result<StringVecResponse, MethodCallError>)
        ensures
            carried_out(
                *old(self),
                *final(self),
                Method::CronDel,
                true,
                cron_type_args(*cron_type),
                result,
            ),
    {
        self.dispatch(Method::CronDel, Ok(build_cron_type_args(cron_type)))
    }

    /// Changes a property by a step, without knowing its value.
    pub fn set_adjust(
        &mut self,
        prop: &AdjustableProp,
        action: &AdjustAction,
    ) -> (result: Result<StringVecResponse, MethodCallError>)
        ensures
            carried_out(
                *old(self),
                *final(self),
                Method::SetAdjust,
                true,
                adjust_args(*prop, *action),
                result,
            ),
    {
        self.dispatch(Method::SetAdjust, Ok(build_adjust_args(prop, action)))
    }

    /// Switches the music mode.
    pub fn set_music(
        &mut self,
        mode: MusicMode,
    ) -> (result: Result<StringVecResponse, MethodCallError>)
        ensures
            carried_out(
                *old(self),
                *final(self),
                Method::SetMusic,
                music_valid(mode),
                music_args(mode),
                result,
            ),
    {
        self.dispatch(Method::SetMusic, build_music_args(mode))
    }

    /// Stores a name on the device.
    pub fn set_name(&mut self, name: &str) -> (result: Result<StringVecResponse, MethodCallError>)
        ensures
            carried_out(
                *old(self),
                *final(self),
                Method::SetName,
                true,
                name_args(name@),
                result,
            ),
    {
        self.dispatch(Method::SetName, Ok(build_name_args(name)))
    }

    /// Sets the colour temperature of the background light.
    pub fn bg_set_ct_abx(
        &mut self,
        ct_value: u16,
        mode: TransitionMode,
    ) -> (result: Result<StringVecResponse, MethodCallError>)
        ensures
            carried_out(
                *old(self),
                *final(self),
                Method::BgSetCtAbx,
                ct_abx_valid(ct_value, mode),
                ct_abx_args(ct_value, mode),
                result,
            ),
    {
        self.dispatch(Method::BgSetCtAbx, build_ct_abx_args(ct_value, &mode))
    }

    /// Sets the colour of the background light.
    pub fn bg_set_rgb(
        &mut self,
        rgb: &RGB,
        mode: TransitionMode,
    ) -> (result: Result<StringVecResponse, MethodCallError>)
        ensures
            carried_out(
                *old(self),
                *final(self),
                Method::BgSetRgb,
                transition_valid(mode),
                rgb_args(*rgb, mode),
                result,
            ),
    {
        self.dispatch(Method::BgSetRgb, build_rgb_args(rgb, &mode))
    }

    /// Sets hue and saturation of the background light.
    pub fn bg_set_hsv(
        &mut self,
        hsv: &HSV,
        mode: TransitionMode,
    ) -> (result: Result<StringVecResponse, MethodCallError>)
        ensures
            carried_out(
                *old(self),
                *final(self),
                Method::BgSetHsv,
                hsv_valid(*hsv, mode),
                hsv_args(*hsv, mode),
                result,
            ),
    {
        self.dispatch(Method::BgSetHsv, build_hsv_args(hsv, &mode))
    }

    /// Sets the brightness of the background light.
    pub fn bg_set_bright(
        &mut self,
        brightness: u8,
        mode: TransitionMode,
    ) -> (result: Result<StringVecResponse, MethodCallError>)
        ensures
            carried_out(
                *old(self),
                *final(self),
                Method::BgSetBright,
                bright_valid(brightness, mode),
                bright_args(brightness, mode),
                result,
            ),
    {
        self.dispatch(Method::BgSetBright, build_bright_args(brightness, &mode))
    }

    /// Switches the background light on or off.
    pub fn bg_set_power(
        &mut self,
        power: Power,
        trans_mode: TransitionMode,
        power_mode: Option<PowerMode>,
    ) -> (result: Result<StringVecResponse, MethodCallError>)
        ensures
            carried_out(
                *old(self),
                *final(self),
                Method::BgSetPower,
                transition_valid(trans_mode),
                power_args(power, trans_mode, power_mode),
                result,
            ),
    {
        self.dispatch(Method::BgSetPower, build_power_args(power, &trans_mode, power_mode))
    }

    /// Switches the background light to the other power state.
    pub fn bg_toggle(&mut self) -> (result: Result<StringVecResponse, MethodCallError>)
        ensures
            carried_out(
                *old(self),
                *final(self),
                Method::BgToggle,
                true,
                Seq::empty(),
                result,
            ),
    {
        self.dispatch(Method::BgToggle, Ok(no_args()))
    }

    /// Makes the current state of the background light the one that it starts in.
    pub fn bg_set_default(&mut self) -> (result: Result<StringVecResponse, MethodCallError>)
        ensures
            carried_out(
                *old(self),
                *final(self),
                Method::BgSetDefault,
                true,
                Seq::empty(),
                result,
            ),
    {
        self.dispatch(Method::BgSetDefault, Ok(no_args()))
    }

    /// Starts a colour flow of the background light.
    pub fn bg_start_cf(
        &mut self,
        cf: &ColorFlow,
    ) -> (result: Result<StringVecResponse, MethodCallError>)
        ensures
            carried_out(
                *old(self),
                *final(self),
                Method::BgStartCf,
                flow_valid(cf.sequence@),
                flow_args(*cf),
                result,
            ),
    {
        self.dispatch(Method::BgStartCf, cf.params())
    }

    /// Stops the colour flow of the background light.
    pub fn bg_stop_cf(&mut self) -> (result: Result<StringVecResponse, MethodCallError>)
        ensures
            carried_out(
                *old(self),
                *final(self),
                Method::BgStopCf,
                true,
                Seq::empty(),
                result,
            ),
    {
        self.dispatch(Method::BgStopCf, Ok(no_args()))
    }

    /// Puts the background light in the state of `scene`.
    pub fn bg_set_scene(
        &mut self,
        scene: &Scene,
    ) -> (result: Result<StringVecResponse, MethodCallError>)
        ensures
            carried_out(
                *old(self),
                *final(self),
                Method::BgSetScene,
                scene_valid(*scene),
                scene_args(*scene),
                result,
            ),
    {
        self.dispatch(Method::BgSetScene, scene.params())
    }

    /// Changes a property of the background light by a step.
    pub fn bg_set_adjust(
        &mut self,
        prop: &AdjustableProp,
        action: &AdjustAction,
    ) -> (result: Result<StringVecResponse, MethodCallError>)
        ensures
            carried_out(
                *old(self),
                *final(self),
                Method::BgSetAdjust,
                true,
                adjust_args(*prop, *action),
                result,
            ),
    {
        self.dispatch(Method::BgSetAdjust, Ok(build_adjust_args(prop, action)))
    }

    /// Switches the main light and the background light at once.
    pub fn dev_toggle(&mut self) -> (result: Result<StringVecResponse, MethodCallError>)
        ensures
            carried_out(
                *old(self),
                *final(self),
                Method::DevToggle,
                true,
                Seq::empty(),
                result,
            ),
    {
        self.dispatch(Method::DevToggle, Ok(no_args()))
    }
}

} // verus!
