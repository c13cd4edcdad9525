//! The types of the control protocol: the dispatcher and its transport, the
//! arguments of the commands, the responses, and the ways a call can fail.

use vstd::prelude::*;
use std::sync::Mutex;
use std::sync::MutexGuard;
use std::time::Duration;
use vstd::utf8::encode_utf8;
use serde_json::Value;
use crate::arguments::args_view;
use crate::arguments::create_message;
use crate::arguments::message;
use crate::arguments::MethodArg;
use crate::bulb::Bulb;
use crate::json::json_of;
use crate::json::Json;
use crate::lightmode::HSV;
use crate::method::Method;
use crate::rgb::RGB;

verus! {

/// `std::io::Error`, which a transport hands back when it fails. Nothing is
/// known of its contents.
#[verifier::external_type_specification]
#[verifier::external_body]
pub struct ExIoError(std::io::Error);

/// The whole nanoseconds that a duration spans: what
/// `std::time::Duration::as_nanos` returns for it.
pub uninterp spec fn nanos_of(d: Duration) -> nat;

/// The whole milliseconds that a duration spans.
pub open spec fn millis_of(d: Duration) -> nat {
    nanos_of(d) / 1_000_000
}

/// `std::time::Duration::as_nanos`: the length of the duration in whole
/// nanoseconds.
#[verifier::external_body]
pub(crate) fn as_nanos(d: &Duration) -> (nanos: u128)
    ensures
        nanos == nanos_of(*d),
{
    d.as_nanos()
}

/// The length of a duration in whole milliseconds.
pub fn whole_millis(d: &Duration) -> (millis: u128)
    ensures
        millis == millis_of(*d),
{
    as_nanos(d) / 1_000_000
}

/// A two-way byte stream to one device.
pub trait Transport {
    /// Sends `buf` and returns how many of its bytes were taken.
    fn write(&mut self, buf: &[u8]) -> Result<usize, std::io::Error>;

    /// Waits for the next bytes and returns them; a caller reads no more
    /// than `limit` of them.
    fn read(&mut self, limit: usize) -> Result<Vec<u8>, std::io::Error>;
}

/// A source of the identifiers that pair replies with calls.
pub trait IdSource {
    /// The identifier for the next call.
    fn next_id(&mut self) -> i16;
}

/// `rand::rngs::StdRng`: a random number generator that is seeded once and
/// draws from its own state from then on.
#[verifier::external_type_specification]
#[verifier::external_body]
pub struct ExStdRng(rand::rngs::StdRng);

/// `rand::SeedableRng::from_rng` on `rand::rngs::OsRng`: a generator that is
/// seeded from the operating system, or nothing where the operating system
/// gives no seed.
#[verifier::external_body]
fn seeded_generator() -> Option<rand::rngs::StdRng> {
    rand::SeedableRng::from_rng(rand::rngs::OsRng).ok()
}

/// `rand::Rng::gen` at the type `i16`: the next value of the generator.
/// Nothing is known of the value.
#[verifier::external_body]
fn random_id(rng: &mut rand::rngs::StdRng) -> i16 {
    rand::Rng::gen(rng)
}

/// Identifiers drawn at random.
pub struct RandomIds {
    rng: rand::rngs::StdRng,
}

impl RandomIds {
    /// A source that is seeded from the operating system; nothing where the
    /// operating system gives no seed.
    pub fn new() -> Option<RandomIds> {
        match seeded_generator() {
            Some(rng) => Some(RandomIds { rng }),
            None => None,
        }
    }
}

impl IdSource for RandomIds {
    fn next_id(&mut self) -> i16 {
        random_id(&mut self.rng)
    }
}

/// `std::sync::Mutex`: a lock around a value. Nothing is known of the value
/// inside.
#[verifier::external_type_specification]
#[verifier::external_body]
#[verifier::reject_recursive_types(T)]
pub struct ExMutex<T: ?Sized>(Mutex<T>);

/// `std::sync::MutexGuard`: the hold on a lock, which ends when the guard
/// goes out of scope.
#[verifier::external_type_specification]
#[verifier::external_body]
#[verifier::reject_recursive_types(T)]
pub struct ExMutexGuard<'a, T: ?Sized + 'a>(MutexGuard<'a, T>);

/// `Mutex::new`: a lock around `t`, which nobody holds.
pub assume_specification<T>[ Mutex::<T>::new ](t: T) -> Mutex<T>
;

/// `DerefMut::deref_mut` of a guard: the value inside the lock that the
/// guard holds.
pub assume_specification<'a, 'b, T: ?Sized>[ <MutexGuard<'a, T> as std::ops::DerefMut>::deref_mut ](
    held: &'b mut MutexGuard<'a, T>,
) -> &'b mut T
;

/// `Mutex::try_lock`: takes the lock without waiting. There is no guard
/// where the lock is held already, and where it is poisoned, that is where
/// an earlier holder panicked.
#[verifier::external_body]
fn guard<'a, T>(lock: &'a Mutex<T>) -> Option<MutexGuard<'a, T>> {
    lock.try_lock().ok()
}

/// One step of a call, with what came of it.
pub enum Exchange {
    /// The source of identifiers gave `id`.
    Drawn { id: i16 },
    /// `bytes` were handed to `write`, which took them or failed with
    /// `failure`.
    Sent { bytes: Seq<u8>, failure: Option<std::io::Error> },
    /// `read` was called, and returned `reply`.
    Received { reply: Result<Seq<u8>, std::io::Error> },
}

/// The dispatcher of one device: its descriptor, the transport to it behind
/// a lock, and the source of the identifiers that pair replies with calls.
///
/// A call holds the lock from before its identifier is drawn until its
/// reply was read or it failed, so at most one call is in flight on a
/// transport at any time.
///
/// The dispatcher keeps a record of all that it asked of its transport and
/// of its source of identifiers. The record is written by `exchange`, where
/// the requests are made, and nowhere else.
#[verifier::reject_recursive_types(T)]
pub struct BulbConnection<T, R> {
    pub bulb: Bulb,
    pub connection: Mutex<T>,
    pub rng: R,
    history: Ghost<Seq<Exchange>>,
}

/// The error of a write that failed.
pub open spec fn write_failure(sent: Result<usize, std::io::Error>) -> Option<std::io::Error> {
    match sent {
        Ok(_) => None,
        Err(e) => Some(e),
    }
}

/// What a read gave: bytes, or its error.
pub open spec fn read_result(received: Result<Vec<u8>, std::io::Error>) -> Result<
    Seq<u8>,
    std::io::Error,
> {
    match received {
        Ok(bytes) => Ok(bytes@),
        Err(e) => Err(e),
    }
}

/// Whether `after` continues `before` by the requests of one call with the
/// identifier `id`: the identifier was drawn, and the request `line` was
/// written once; if the transport took it, one read followed. Where the
/// write or the read failed, `got` is the transport error that it gave.
/// Else `got` is the identifier and the bytes that were read.
pub open spec fn asked(
    before: Seq<Exchange>,
    after: Seq<Exchange>,
    id: i16,
    line: Seq<u8>,
    got: Result<(i16, Vec<u8>), MethodCallError>,
) -> bool {
    let drawn = before.push(Exchange::Drawn { id });
    let written = drawn.push(Exchange::Sent { bytes: line, failure: None });
    ||| {
        &&& got matches Err(MethodCallError::IOError(e))
        &&& after == drawn.push(Exchange::Sent { bytes: line, failure: Some(e) })
    }
    ||| {
        &&& got matches Err(MethodCallError::IOError(e))
        &&& after == written.push(Exchange::Received { reply: Err(e) })
    }
    ||| {
        &&& got matches Ok(pair)
        &&& pair.0 == id
        &&& after == written.push(Exchange::Received { reply: Ok(pair.1@) })
    }
}

impl<T, R> BulbConnection<T, R> {
    /// The descriptor of the device.
    pub closed spec fn device(&self) -> Bulb {
        self.bulb
    }

    /// The source of identifiers.
    pub closed spec fn ids(&self) -> R {
        self.rng
    }

    /// All that this dispatcher has asked of its transport and of its source
    /// of identifiers, the oldest first.
    pub closed spec fn history(&self) -> Seq<Exchange> {
        self.history@
    }

    /// A dispatcher for the device `bulb`, over a transport that is
    /// connected to it and of which nothing was asked yet.
    pub fn new(bulb: Bulb, connection: T, rng: R) -> (dispatcher: Self)
        ensures
            dispatcher.device() == bulb,
            dispatcher.ids() == rng,
            dispatcher.history() == Seq::<Exchange>::empty(),
    {
        BulbConnection {
            bulb,
            connection: Mutex::new(connection),
            rng,
            history: Ghost(Seq::empty()),
        }
    }

    /// Whether the device supports `method`.
    pub fn supports(&self, method: Method) -> (yes: bool)
        ensures
            yes == self.device().capabilities().contains(method),
    {
        self.bulb.supports(method)
    }
}

impl<T: Transport, R: IdSource> BulbConnection<T, R> {
    /// Makes the requests of one call of `method` with `args`: takes the
    /// lock on the transport, draws an identifier, writes the request line
    /// once and reads once. The lock is let go when this returns.
    ///
    /// Where the lock is not to be had, nothing is asked of anyone, and the
    /// failure is a synchronization error.
    pub(crate) fn exchange(&mut self, method: Method, args: Vec<MethodArg>) -> (got: Result<
        (i16, Vec<u8>),
        MethodCallError,
    >)
        ensures
            final(self).device() == old(self).device(),
            got matches Err(MethodCallError::SynchronizationError) ==> *final(self) == *old(self),
            !(got matches Err(MethodCallError::SynchronizationError)) ==> exists|id: i16| #[trigger]
                asked(
                    old(self).history(),
                    final(self).history(),
                    id,
                    encode_utf8(message(id, method, args_view(args@))),
                    got,
                ),
    {
        let mut held = match guard(&self.connection) {
            Some(held) => held,
            None => {
                return Err(MethodCallError::SynchronizationError);
            },
        };
        let id = self.rng.next_id();
        proof {
            self.history@ = self.history@.push(Exchange::Drawn { id });
        }
        let ghost request = encode_utf8(message(id, method, args_view(args@)));
        let line = create_message(id, &method, args);
        let sent = held.write(line.as_str().as_bytes());
        proof {
            self.history@ = self.history@.push(
                Exchange::Sent { bytes: request, failure: write_failure(sent) },
            );
        }
        match sent {
            Ok(_) => {},
            Err(e) => {
                let got = Err(MethodCallError::IOError(e));
                assert(asked(old(self).history(), self.history(), id, request, got));
                return got;
            },
        }
        let received = held.read(REPLY_LIMIT);
        proof {
            self.history@ = self.history@.push(Exchange::Received { reply: read_result(received) });
        }
        let got = match received {
            Ok(bytes) => Ok((id, bytes)),
            Err(e) => Err(MethodCallError::IOError(e)),
        };
        assert(asked(old(self).history(), self.history(), id, request, got));
        got
    }
}

/// An error that a device reports: a code and a message.
#[derive(Debug, Clone)]
pub struct BulbErrorResponse {
    pub code: i32,
    pub message: String,
}

/// The reply of a device that rejects a call.
#[derive(Debug, Clone)]
pub struct ErrorResponse {
    pub id: i16,
    pub error: BulbErrorResponse,
}

/// How a call can fail.
#[derive(Debug)]
pub enum MethodCallError {
    /// An argument is out of range; nothing was sent.
    BadRequest,
    /// The device does not support the method; nothing was sent.
    UnsupportedMethod,
    /// The transport failed.
    IOError(std::io::Error),
    /// The reply is neither a result nor an error of the protocol.
    ParseError,
    /// The reply answers another call.
    SynchronizationError,
    /// The device rejected the call.
    ErrorResponse(ErrorResponse),
}

/// What a failed call is, without the contents of a transport error.
pub enum Failure {
    BadRequest,
    UnsupportedMethod,
    IOError,
    ParseError,
    SynchronizationError,
    ErrorResponse { id: i16, code: i32, message: Seq<char> },
}

impl View for ErrorResponse {
    type V = (i16, i32, Seq<char>);

    open spec fn view(&self) -> (i16, i32, Seq<char>) {
        (self.id, self.error.code, self.error.message@)
    }
}

impl View for MethodCallError {
    type V = Failure;

    open spec fn view(&self) -> Failure {
        match self {
            MethodCallError::BadRequest => Failure::BadRequest,
            MethodCallError::UnsupportedMethod => Failure::UnsupportedMethod,
            MethodCallError::IOError(_) => Failure::IOError,
            MethodCallError::ParseError => Failure::ParseError,
            MethodCallError::SynchronizationError => Failure::SynchronizationError,
            MethodCallError::ErrorResponse(e) => Failure::ErrorResponse {
                id: e.id,
                code: e.error.code,
                message: e.error.message@,
            },
        }
    }
}

/// A reply that carries a result, of one of the shapes that the protocol has.
pub trait MethodCallResponse: Sized + View {
    /// The identifier of the call that a reply answers.
    spec fn id_of(reply: Self::V) -> i16;

    /// The reply that a JSON document holds, if it has the shape of one.
    spec fn shape(doc: Json) -> Option<Self::V>;

    /// The identifier of the call that this reply answers.
    fn id(&self) -> (id: i16)
        ensures
            id == Self::id_of(self@),
    ;

    /// Reads a reply from a JSON document.
    fn read(doc: &Value) -> (reply: Option<Self>)
        ensures
            match reply {
                Some(r) => Self::shape(json_of(*doc)) == Some(r@),
                None => Self::shape(json_of(*doc)) is None,
            },
    ;
}

/// A reply that carries a list of strings.
#[derive(Debug, Clone)]
pub struct StringVecResponse {
    pub id: i16,
    pub result: Vec<String>,
}

/// One timer of a device.
#[derive(Debug, Clone, Copy, PartialEq, Eq, Structural)]
pub struct CronResult {
    pub cron_type: i32,
    pub delay: u16,
    pub mix: i32,
}

/// A reply that carries a list of timers.
#[derive(Debug, Clone)]
pub struct CronResponse {
    pub id: i16,
    pub result: Vec<CronResult>,
}

/// Whether a device plays to the music of a server.
pub enum MusicMode<'a> {
    /// Host and port of the server.
    On(&'a str, usize),
    Off,
}

/// A property that `set_adjust` changes.
pub enum AdjustableProp {
    Brightness,
    Ct,
    Color,
}

/// The direction in which `set_adjust` changes a property.
pub enum AdjustAction {
    Increase,
    Decrease,
    Circle,
}

/// The kind of a timer.
pub enum CronType {
    PowerOff,
}

/// What a device does when a colour flow ends.
pub enum CfAction {
    Recover,
    Stay,
    TurnOff,
}

/// Brightness in percent.
pub type Brightness = u8;

/// Colour temperature in kelvin.
pub type Ct = u16;

/// A state that `set_scene` puts a device in.
pub enum Scene<'a, 'b> {
    Color(&'a RGB, Brightness),
    HSV(&'a HSV, Brightness),
    Ct(Ct, Brightness),
    Cf(&'b ColorFlow),
    /// Brightness, and the minutes after which the device switches off.
    AutoDelayOff(Brightness, u16),
}

/// A colour flow: a sequence of steps, how often the device runs through
/// them, and what it does afterwards.
pub struct ColorFlow {
    pub count: u16,
    pub action: CfAction,
    pub sequence: Vec<FlowTuple>,
}

/// A timer to set.
pub struct Cron {
    pub cron_type: CronType,
    pub minutes: u16,
}

impl Cron {
    /// The timer to set that corresponds to a timer of a device. Only
    /// timers that switch the device off, whose type is 0, can be set.
    pub fn try_from(value: CronResult) -> (cron: Result<Cron, String>)
        ensures
            match cron {
                Ok(c) => value.cron_type == 0 && c.cron_type is PowerOff && c.minutes
                    == value.delay,
                Err(e) => value.cron_type != 0 && e@ == "Unsupported cron type."@,
            },
    {
        if value.cron_type != 0 {
            return Err("Unsupported cron type.".to_owned());
        }
        Ok(Cron { cron_type: CronType::PowerOff, minutes: value.delay })
    }
}

/// One step of a colour flow.
pub struct FlowTuple {
    pub duration: Duration,
    pub mode: FlowTupleMode,
}

/// A step that shows a colour.
pub struct ColorFlowTupleMode {
    pub color: RGB,
    pub brightness: Brightness,
}

/// A step that shows a colour temperature.
pub struct CtFlowTupleMode {
    pub ct: Ct,
    pub brightness: Brightness,
}

/// What a step of a colour flow shows.
pub enum FlowTupleMode {
    Color(ColorFlowTupleMode),
    Ct(CtFlowTupleMode),
    Sleep,
}

/// The mode in which `set_power` switches a device on.
pub enum PowerMode {
    Ct,
    Rgb,
    Hsv,
    ColorFlow,
    NightLight,
}

/// How a device moves to a new state.
pub enum TransitionMode {
    /// At once.
    Sudden,
    /// Gradually, over the given time.
    Smooth(Duration),
}

/// The least minutes of an automatic switch-off.
pub const MIN_AUTO_DELAY_OFF_MINUTES: u8 = 1;

/// The least length of a step of a colour flow, in milliseconds.
pub const MINIMUM_CF_DURATION: u128 = 50;

/// The highest brightness.
pub const MAX_BRIGHTNESS: u8 = 100;

/// The least length of a smooth transition, in milliseconds.
pub const MINIMUM_TRANSITION_DURATION: u128 = 30;

/// The lowest colour temperature.
pub const CT_MIN: u16 = 1700;

/// The highest colour temperature.
pub const CT_MAX: u16 = 6500;

/// How many bytes of a reply are read.
pub const REPLY_LIMIT: usize = 2048;

} // verus!
