//! The supervision loop's state machine.
//!
//! The loop itself performs no I/O. It is driven from outside: the driver asks
//! the machine for the next [`Action`], performs it against the configuration
//! store, the service manager, the host's environment expansion or the
//! cancellable clock, and hands the outcome back as an [`Event`]. Every
//! decision — how configuration values are decoded and interpreted, which
//! services are started, when the loop terminates — is made here.

use crate::codec::spec_decode;
use crate::codec::CodecError;
use crate::codec::RawDecode;
use crate::codec::RawModel;
use crate::codec::RegistryValue;
use crate::codec::ValueModel;
use crate::wide_string::ascii_to_units;
use crate::wide_string::ascii_units;
use vstd::prelude::*;
use vstd::string::is_ascii;

verus! {

/// The control code by which the dispatch mechanism requests a stop.
pub const CONTROL_STOP: u32 = 1;

/// The control code by which the dispatch mechanism asks for a status report.
pub const CONTROL_INTERROGATE: u32 = 4;

/// Whether a control notification asks the supervisor to stop. Only a stop
/// request is acted on; every other notification is acknowledged and ignored.
pub fn control_requests_stop(control_value: u32) -> (r: bool)
    ensures
        r == (control_value == CONTROL_STOP),
{
    control_value == CONTROL_STOP
}

/// The lifecycle state of a managed service, as the service manager reports
/// it.
#[derive(Clone, Copy, Debug, PartialEq, Eq, Hash, Structural)]
pub enum ServiceState {
    Stopped,
    StartPending,
    StopPending,
    Running,
    ContinuePending,
    PausePending,
    Paused,
}

/// The numeric code under which the service manager reports a state.
pub open spec fn service_state_code(s: ServiceState) -> u32 {
    match s {
        ServiceState::Stopped => 1,
        ServiceState::StartPending => 2,
        ServiceState::StopPending => 3,
        ServiceState::Running => 4,
        ServiceState::ContinuePending => 5,
        ServiceState::PausePending => 6,
        ServiceState::Paused => 7,
    }
}

/// The state a numeric code reports, if the code is a known one.
pub open spec fn service_state_of_code(code: u32) -> Option<ServiceState> {
    if code == 1 {
        Some(ServiceState::Stopped)
    } else if code == 2 {
        Some(ServiceState::StartPending)
    } else if code == 3 {
        Some(ServiceState::StopPending)
    } else if code == 4 {
        Some(ServiceState::Running)
    } else if code == 5 {
        Some(ServiceState::ContinuePending)
    } else if code == 6 {
        Some(ServiceState::PausePending)
    } else if code == 7 {
        Some(ServiceState::Paused)
    } else {
        None
    }
}

impl ServiceState {
    /// The numeric code under which the service manager reports this state.
    pub fn to_code(&self) -> (code: u32)
        ensures
            code == service_state_code(*self),
    {
        match self {
            ServiceState::Stopped => 1,
            ServiceState::StartPending => 2,
            ServiceState::StopPending => 3,
            ServiceState::Running => 4,
            ServiceState::ContinuePending => 5,
            ServiceState::PausePending => 6,
            ServiceState::Paused => 7,
        }
    }

    /// Reads a state out of the service manager's numeric code; an unknown
    /// code yields nothing.
    pub fn from_code(code: u32) -> (r: Option<ServiceState>)
        ensures
            r == service_state_of_code(code),
    {
        if code == 1 {
            Some(ServiceState::Stopped)
        } else if code == 2 {
            Some(ServiceState::StartPending)
        } else if code == 3 {
            Some(ServiceState::StopPending)
        } else if code == 4 {
            Some(ServiceState::Running)
        } else if code == 5 {
            Some(ServiceState::ContinuePending)
        } else if code == 6 {
            Some(ServiceState::PausePending)
        } else if code == 7 {
            Some(ServiceState::Paused)
        } else {
            None
        }
    }
}

/// Reading a state code back from a state restores the state, for every known
/// code.
pub proof fn lemma_service_state_code_round_trip(s: ServiceState)
    ensures
        service_state_of_code(service_state_code(s)) == Some(s),
{
}

/// The predefined root keys of the configuration store.
#[derive(Clone, Copy, Debug, Eq, Hash, PartialEq, Structural)]
pub enum PredefinedKey {
    ClassesRoot,
    CurrentConfig,
    CurrentUser,
    LocalMachine,
    Users,
}

/// The numeric handle value under which the store predefines a root key.
pub open spec fn predefined_key_code(k: PredefinedKey) -> u32 {
    match k {
        PredefinedKey::ClassesRoot => 0x80000000u32,
        PredefinedKey::CurrentUser => 0x80000001u32,
        PredefinedKey::LocalMachine => 0x80000002u32,
        PredefinedKey::Users => 0x80000003u32,
        PredefinedKey::CurrentConfig => 0x80000005u32,
    }
}

impl PredefinedKey {
    /// The numeric handle value under which the store predefines this root.
    pub fn to_code(&self) -> (code: u32)
        ensures
            code == predefined_key_code(*self),
    {
        match self {
            PredefinedKey::ClassesRoot => 0x80000000,
            PredefinedKey::CurrentUser => 0x80000001,
            PredefinedKey::LocalMachine => 0x80000002,
            PredefinedKey::Users => 0x80000003,
            PredefinedKey::CurrentConfig => 0x80000005,
        }
    }
}

/// The configuration values the loop reads.
#[derive(Clone, Copy, Debug, PartialEq, Eq, Structural)]
pub enum ConfigItem {
    /// The optional extra delay, in milliseconds, before the first cycle.
    InitialDelay,
    /// The required list of services expected to be running.
    WatchList,
    /// The required sleep interval, in milliseconds, between cycles.
    Interval,
}

/// The name under which a configuration value is stored, as code units.
pub open spec fn value_name_units(item: ConfigItem) -> Seq<u16> {
    match item {
        ConfigItem::InitialDelay => ascii_units("InitialSleepDurationMilliseconds"@),
        ConfigItem::WatchList => ascii_units("ServicesExpectedRunning"@),
        ConfigItem::Interval => ascii_units("SleepDurationMilliseconds"@),
    }
}

/// The name under which a configuration value is stored, as code units.
pub fn config_value_name(item: ConfigItem) -> (r: Vec<u16>)
    ensures
        r@ == value_name_units(item),
{
    match item {
        ConfigItem::InitialDelay => {
            let s = "InitialSleepDurationMilliseconds";
            proof {
                reveal_strlit("InitialSleepDurationMilliseconds");
                assert(is_ascii(s));
            }
            ascii_to_units(s)
        },
        ConfigItem::WatchList => {
            let s = "ServicesExpectedRunning";
            proof {
                reveal_strlit("ServicesExpectedRunning");
                assert(is_ascii(s));
            }
            ascii_to_units(s)
        },
        ConfigItem::Interval => {
            let s = "SleepDurationMilliseconds";
            proof {
                reveal_strlit("SleepDurationMilliseconds");
                assert(is_ascii(s));
            }
            ascii_to_units(s)
        },
    }
}

/// The key path under which a watched process's parameters live: a fixed
/// namespace prefix, the process's configured name, and a fixed suffix.
pub open spec fn parameters_path_units(service_name: Seq<u16>) -> Seq<u16> {
    ascii_units("SYSTEM\\CurrentControlSet\\Services\\"@) + service_name + ascii_units(
        "\\Parameters"@,
    )
}

/// Derives the configuration key path for a process name.
pub fn get_my_registry_path(service_name: &Vec<u16>) -> (r: Vec<u16>)
    ensures
        r@ == parameters_path_units(service_name@),
{
    let prefix = "SYSTEM\\CurrentControlSet\\Services\\";
    let suffix = "\\Parameters";
    proof {
        reveal_strlit("SYSTEM\\CurrentControlSet\\Services\\");
        reveal_strlit("\\Parameters");
        assert(is_ascii(prefix));
        assert(is_ascii(suffix));
    }
    let mut r = ascii_to_units(prefix);
    push_units(&mut r, service_name);
    let tail = ascii_to_units(suffix);
    push_units(&mut r, &tail);
    r
}

/// Appends the units of `src` to `dst`.
fn push_units(dst: &mut Vec<u16>, src: &Vec<u16>)
    ensures
        final(dst)@ == old(dst)@ + src@,
{
    let mut i: usize = 0;
    while i < src.len()
        invariant
            i <= src@.len(),
            dst@ == old(dst)@ + src@.take(i as int),
        decreases src@.len() - i,
    {
        dst.push(src[i]);
        proof {
            assert((old(dst)@ + src@.take(i as int)).push(src@[i as int]) =~= old(dst)@
                + src@.take(i as int + 1));
        }
        i = i + 1;
    }
    proof {
        assert(old(dst)@ + src@.take(src@.len() as int) =~= old(dst)@ + src@);
    }
}

/// The milliseconds a decoded configuration value denotes, for the integer
/// value kinds the loop accepts.
pub open spec fn duration_of_value(m: ValueModel) -> Option<u64> {
    match m {
        ValueModel::Integer32LE(x) => Some(x as u64),
        ValueModel::Integer32BE(x) => Some(x as u64),
        ValueModel::Integer64LE(x) => Some(x),
        _ => None,
    }
}

/// Reads a duration in milliseconds out of a decoded configuration value; any
/// non-integer kind is rejected.
pub fn duration_of(v: &RegistryValue) -> (r: Option<u64>)
    ensures
        r == duration_of_value(v@),
{
    match v {
        RegistryValue::Integer32LE(x) => Some(*x as u64),
        RegistryValue::Integer32BE(x) => Some(*x as u64),
        RegistryValue::Integer64LE(x) => Some(*x),
        _ => None,
    }
}

/// The watch list a decoded configuration value denotes, if it is a text
/// list.
pub open spec fn watch_list_of_value(m: ValueModel) -> Option<Seq<Seq<u16>>> {
    match m {
        ValueModel::TextList(names) => Some(names),
        _ => None,
    }
}

/// Takes the watch list out of a decoded configuration value; any other kind
/// is rejected.
pub fn into_watch_list(v: RegistryValue) -> (r: Option<Vec<Vec<u16>>>)
    ensures
        match r {
            Some(names) => watch_list_of_value(v@) == Some(names.deep_view()),
            None => watch_list_of_value(v@) is None,
        },
{
    match v {
        RegistryValue::TextList(names) => Some(names),
        _ => None,
    }
}

/// A raw value as the configuration store hands it out: the wire type tag and
/// the payload bytes.
#[derive(Clone, Debug, PartialEq, Eq)]
pub struct RawValue {
    pub tag: u32,
    pub bytes: Vec<u8>,
}

/// The mathematical model of a [`RawValue`].
#[verifier::ext_equal]
pub struct RawValueModel {
    pub tag: u32,
    pub bytes: Seq<u8>,
}

impl View for RawValue {
    type V = RawValueModel;

    open spec fn view(&self) -> RawValueModel {
        RawValueModel { tag: self.tag, bytes: self.bytes@ }
    }
}

/// Why the loop terminates the process. Every fatal condition carries its
/// context: the platform error code, the codec error, or the offending
/// service name.
#[derive(Debug, PartialEq, Eq)]
pub enum FatalError {
    ConfigOpenFailed { code: u32 },
    InitialDelayReadFailed { code: u32 },
    InitialDelayMalformed { error: CodecError },
    InitialDelayUnexpectedType,
    WatchListReadFailed { code: u32 },
    WatchListMalformed { error: CodecError },
    WatchListUnexpectedType,
    IntervalReadFailed { code: u32 },
    IntervalMalformed { error: CodecError },
    IntervalUnexpectedType,
    ManagerConnectFailed { code: u32 },
    ServiceOpenFailed { name: Vec<u16>, code: u32 },
    ServiceQueryFailed { name: Vec<u16>, code: u32 },
    ServiceStartFailed { name: Vec<u16>, code: u32 },
}

/// The mathematical model of a [`FatalError`].
#[verifier::ext_equal]
pub enum FatalModel {
    ConfigOpenFailed { code: u32 },
    InitialDelayReadFailed { code: u32 },
    InitialDelayMalformed { error: CodecError },
    InitialDelayUnexpectedType,
    WatchListReadFailed { code: u32 },
    WatchListMalformed { error: CodecError },
    WatchListUnexpectedType,
    IntervalReadFailed { code: u32 },
    IntervalMalformed { error: CodecError },
    IntervalUnexpectedType,
    ManagerConnectFailed { code: u32 },
    ServiceOpenFailed { name: Seq<u16>, code: u32 },
    ServiceQueryFailed { name: Seq<u16>, code: u32 },
    ServiceStartFailed { name: Seq<u16>, code: u32 },
}

impl View for FatalError {
    type V = FatalModel;

    open spec fn view(&self) -> FatalModel {
        match self {
            FatalError::ConfigOpenFailed { code } => FatalModel::ConfigOpenFailed { code: *code },
            FatalError::InitialDelayReadFailed { code } => FatalModel::InitialDelayReadFailed {
                code: *code,
            },
            FatalError::InitialDelayMalformed { error } => FatalModel::InitialDelayMalformed {
                error: *error,
            },
            FatalError::InitialDelayUnexpectedType => FatalModel::InitialDelayUnexpectedType,
            FatalError::WatchListReadFailed { code } => FatalModel::WatchListReadFailed {
                code: *code,
            },
            FatalError::WatchListMalformed { error } => FatalModel::WatchListMalformed {
                error: *error,
            },
            FatalError::WatchListUnexpectedType => FatalModel::WatchListUnexpectedType,
            FatalError::IntervalReadFailed { code } => FatalModel::IntervalReadFailed {
                code: *code,
            },
            FatalError::IntervalMalformed { error } => FatalModel::IntervalMalformed {
                error: *error,
            },
            FatalError::IntervalUnexpectedType => FatalModel::IntervalUnexpectedType,
            FatalError::ManagerConnectFailed { code } => FatalModel::ManagerConnectFailed {
                code: *code,
            },
            FatalError::ServiceOpenFailed { name, code } => FatalModel::ServiceOpenFailed {
                name: name@,
                code: *code,
            },
            FatalError::ServiceQueryFailed { name, code } => FatalModel::ServiceQueryFailed {
                name: name@,
                code: *code,
            },
            FatalError::ServiceStartFailed { name, code } => FatalModel::ServiceStartFailed {
                name: name@,
                code: *code,
            },
        }
    }
}

impl Clone for FatalError {
    /// A clone reports the same fatal condition.
    fn clone(&self) -> (r: Self)
        ensures
            r@ == self@,
    {
        match self {
            FatalError::ConfigOpenFailed { code } => FatalError::ConfigOpenFailed { code: *code },
            FatalError::InitialDelayReadFailed { code } => FatalError::InitialDelayReadFailed {
                code: *code,
            },
            FatalError::InitialDelayMalformed { error } => FatalError::InitialDelayMalformed {
                error: *error,
            },
            FatalError::InitialDelayUnexpectedType => FatalError::InitialDelayUnexpectedType,
            FatalError::WatchListReadFailed { code } => FatalError::WatchListReadFailed {
                code: *code,
            },
            FatalError::WatchListMalformed { error } => FatalError::WatchListMalformed {
                error: *error,
            },
            FatalError::WatchListUnexpectedType => FatalError::WatchListUnexpectedType,
            FatalError::IntervalReadFailed { code } => FatalError::IntervalReadFailed {
                code: *code,
            },
            FatalError::IntervalMalformed { error } => FatalError::IntervalMalformed {
                error: *error,
            },
            FatalError::IntervalUnexpectedType => FatalError::IntervalUnexpectedType,
            FatalError::ManagerConnectFailed { code } => FatalError::ManagerConnectFailed {
                code: *code,
            },
            FatalError::ServiceOpenFailed { name, code } => FatalError::ServiceOpenFailed {
                name: name.clone(),
                code: *code,
            },
            FatalError::ServiceQueryFailed { name, code } => FatalError::ServiceQueryFailed {
                name: name.clone(),
                code: *code,
            },
            FatalError::ServiceStartFailed { name, code } => FatalError::ServiceStartFailed {
                name: name.clone(),
                code: *code,
            },
        }
    }
}

/// An outcome the driver hands back to the machine, answering the action it
/// last asked for. Results carry the platform's error code on failure.
#[derive(Debug, PartialEq, Eq)]
pub enum Event {
    /// The configuration key was opened, or could not be.
    ConfigOpened { result: Result<(), u32> },
    /// An optional configuration value was read; absence is not an error.
    OptionalValueRead { result: Result<Option<RawValue>, u32> },
    /// A required configuration value was read.
    ValueRead { result: Result<RawValue, u32> },
    /// The host expanded environment-variable references, or failed to.
    Expanded { result: Result<Vec<u16>, u32> },
    /// The service manager connection was opened, or could not be.
    ManagerConnected { result: Result<(), u32> },
    /// The watched service was opened, or could not be.
    ServiceOpened { result: Result<(), u32> },
    /// The watched service's state was queried.
    StateQueried { result: Result<ServiceState, u32> },
    /// The start command was issued, or could not be.
    StartIssued { result: Result<(), u32> },
    /// The timed wait on the cancellable clock returned.
    Waited { stop: bool },
}

/// The mathematical model of an [`Event`].
#[verifier::ext_equal]
pub enum EventModel {
    ConfigOpened { result: Result<(), u32> },
    OptionalValueRead { result: Result<Option<RawValueModel>, u32> },
    ValueRead { result: Result<RawValueModel, u32> },
    Expanded { result: Result<Seq<u16>, u32> },
    ManagerConnected { result: Result<(), u32> },
    ServiceOpened { result: Result<(), u32> },
    StateQueried { result: Result<ServiceState, u32> },
    StartIssued { result: Result<(), u32> },
    Waited { stop: bool },
}

impl View for Event {
    type V = EventModel;

    open spec fn view(&self) -> EventModel {
        match self {
            Event::ConfigOpened { result } => EventModel::ConfigOpened { result: *result },
            Event::OptionalValueRead { result } => EventModel::OptionalValueRead {
                result: match result {
                    Ok(Some(raw)) => Ok(Some(raw@)),
                    Ok(None) => Ok(None),
                    Err(code) => Err(*code),
                },
            },
            Event::ValueRead { result } => EventModel::ValueRead {
                result: match result {
                    Ok(raw) => Ok(raw@),
                    Err(code) => Err(*code),
                },
            },
            Event::Expanded { result } => EventModel::Expanded {
                result: match result {
                    Ok(units) => Ok(units@),
                    Err(code) => Err(*code),
                },
            },
            Event::ManagerConnected { result } => EventModel::ManagerConnected { result: *result },
            Event::ServiceOpened { result } => EventModel::ServiceOpened { result: *result },
            Event::StateQueried { result } => EventModel::StateQueried { result: *result },
            Event::StartIssued { result } => EventModel::StartIssued { result: *result },
            Event::Waited { stop } => EventModel::Waited { stop: *stop },
        }
    }
}

/// What the machine asks the driver to do next.
#[derive(Clone, Debug, PartialEq, Eq)]
pub enum Action {
    /// Open the configuration key for this run's parameters.
    OpenConfig,
    /// Read the named configuration value, treating absence as `None`.
    ReadOptionalValue { item: ConfigItem },
    /// Read the named configuration value; absence is an error.
    ReadValue { item: ConfigItem },
    /// Ask the host to expand environment-variable references in the text.
    ExpandText { unexpanded: Vec<u16> },
    /// Connect to the service manager.
    ConnectManager,
    /// Open the named service.
    OpenService { name: Vec<u16> },
    /// Query the state of the service opened last.
    QueryServiceState,
    /// Issue a start command to the named service.
    StartService { name: Vec<u16> },
    /// Wait on the cancellable clock for the given milliseconds.
    Wait { timeout_ms: u64 },
    /// Terminal: log the fatal condition and terminate the process.
    ReportFailure { error: FatalError },
    /// Terminal: report the run stopped cleanly and return.
    ReportFinished,
}

/// The mathematical model of an [`Action`].
#[verifier::ext_equal]
pub enum ActionModel {
    OpenConfig,
    ReadOptionalValue { item: ConfigItem },
    ReadValue { item: ConfigItem },
    ExpandText { unexpanded: Seq<u16> },
    ConnectManager,
    OpenService { name: Seq<u16> },
    QueryServiceState,
    StartService { name: Seq<u16> },
    Wait { timeout_ms: u64 },
    ReportFailure { error: FatalModel },
    ReportFinished,
}

impl View for Action {
    type V = ActionModel;

    open spec fn view(&self) -> ActionModel {
        match self {
            Action::OpenConfig => ActionModel::OpenConfig,
            Action::ReadOptionalValue { item } => ActionModel::ReadOptionalValue { item: *item },
            Action::ReadValue { item } => ActionModel::ReadValue { item: *item },
            Action::ExpandText { unexpanded } => ActionModel::ExpandText {
                unexpanded: unexpanded@,
            },
            Action::ConnectManager => ActionModel::ConnectManager,
            Action::OpenService { name } => ActionModel::OpenService { name: name@ },
            Action::QueryServiceState => ActionModel::QueryServiceState,
            Action::StartService { name } => ActionModel::StartService { name: name@ },
            Action::Wait { timeout_ms } => ActionModel::Wait { timeout_ms: *timeout_ms },
            Action::ReportFailure { error } => ActionModel::ReportFailure { error: error@ },
            Action::ReportFinished => ActionModel::ReportFinished,
        }
    }
}

/// The fine-grained phase of the supervision loop. Each phase waits for
/// exactly one event: the answer to the action it asks for.
#[derive(Clone, Debug, PartialEq, Eq)]
pub enum Phase {
    /// Opening the configuration key; on the first cycle the initial delay is
    /// read next, on later cycles the watch list.
    OpeningConfig { first: bool },
    /// Reading the optional initial extra delay.
    ReadingInitialDelay,
    /// Waiting the initial extra delay on the cancellable clock.
    WaitingInitialDelay { delay_ms: u64 },
    /// Reading the required watch list.
    ReadingWatchList,
    /// Reading the required sleep interval, the watch list in hand.
    ReadingInterval { names: Vec<Vec<u16>> },
    /// Connecting to the service manager.
    ConnectingManager { names: Vec<Vec<u16>>, interval_ms: u64 },
    /// Opening the watched service at `index`.
    OpeningService { names: Vec<Vec<u16>>, index: usize, interval_ms: u64 },
    /// Querying the state of the watched service at `index`.
    QueryingService { names: Vec<Vec<u16>>, index: usize, interval_ms: u64 },
    /// Starting the watched service at `index`, found stopped.
    StartingService { names: Vec<Vec<u16>>, index: usize, interval_ms: u64 },
    /// Waiting the regular interval on the cancellable clock.
    Sleeping { interval_ms: u64 },
    /// Waiting for the host to expand a configuration value's text.
    ExpandingValue { item: ConfigItem, unexpanded: Vec<u16> },
    /// Terminal: a fatal condition was met; the process terminates.
    Failed { error: FatalError },
    /// Terminal: a stop was requested; the run ends cleanly.
    Finished,
}

/// The mathematical model of a [`Phase`].
#[verifier::ext_equal]
pub enum PhaseModel {
    OpeningConfig { first: bool },
    ReadingInitialDelay,
    WaitingInitialDelay { delay_ms: u64 },
    ReadingWatchList,
    ReadingInterval { names: Seq<Seq<u16>> },
    ConnectingManager { names: Seq<Seq<u16>>, interval_ms: u64 },
    OpeningService { names: Seq<Seq<u16>>, index: int, interval_ms: u64 },
    QueryingService { names: Seq<Seq<u16>>, index: int, interval_ms: u64 },
    StartingService { names: Seq<Seq<u16>>, index: int, interval_ms: u64 },
    Sleeping { interval_ms: u64 },
    ExpandingValue { item: ConfigItem, unexpanded: Seq<u16> },
    Failed { error: FatalModel },
    Finished,
}

impl View for Phase {
    type V = PhaseModel;

    open spec fn view(&self) -> PhaseModel {
        match self {
            Phase::OpeningConfig { first } => PhaseModel::OpeningConfig { first: *first },
            Phase::ReadingInitialDelay => PhaseModel::ReadingInitialDelay,
            Phase::WaitingInitialDelay { delay_ms } => PhaseModel::WaitingInitialDelay {
                delay_ms: *delay_ms,
            },
            Phase::ReadingWatchList => PhaseModel::ReadingWatchList,
            Phase::ReadingInterval { names } => PhaseModel::ReadingInterval {
                names: names.deep_view(),
            },
            Phase::ConnectingManager { names, interval_ms } => PhaseModel::ConnectingManager {
                names: names.deep_view(),
                interval_ms: *interval_ms,
            },
            Phase::OpeningService { names, index, interval_ms } => PhaseModel::OpeningService {
                names: names.deep_view(),
                index: *index as int,
                interval_ms: *interval_ms,
            },
            Phase::QueryingService { names, index, interval_ms } => PhaseModel::QueryingService {
                names: names.deep_view(),
                index: *index as int,
                interval_ms: *interval_ms,
            },
            Phase::StartingService { names, index, interval_ms } => PhaseModel::StartingService {
                names: names.deep_view(),
                index: *index as int,
                interval_ms: *interval_ms,
            },
            Phase::Sleeping { interval_ms } => PhaseModel::Sleeping { interval_ms: *interval_ms },
            Phase::ExpandingValue { item, unexpanded } => PhaseModel::ExpandingValue {
                item: *item,
                unexpanded: unexpanded@,
            },
            Phase::Failed { error } => PhaseModel::Failed { error: error@ },
            Phase::Finished => PhaseModel::Finished,
        }
    }
}

/// The coarse states of the supervision loop.
#[derive(Clone, Copy, Debug, PartialEq, Eq, Structural)]
pub enum LoopState {
    /// Entered once: the first configuration open and the initial delay.
    Starting,
    /// Reading and decoding the cycle's configuration values.
    CheckingConfig,
    /// Walking the watch list and starting stopped services.
    EnsuringServices,
    /// Waiting the regular interval for the next cycle or a stop.
    Sleeping,
    /// Terminal: the loop has returned control to its caller.
    Terminated,
}

/// The coarse state a phase belongs to.
pub open spec fn loop_state_of(p: PhaseModel) -> LoopState {
    match p {
        PhaseModel::OpeningConfig { first } => if first {
            LoopState::Starting
        } else {
            LoopState::CheckingConfig
        },
        PhaseModel::ReadingInitialDelay => LoopState::Starting,
        PhaseModel::WaitingInitialDelay { .. } => LoopState::Starting,
        PhaseModel::ReadingWatchList => LoopState::CheckingConfig,
        PhaseModel::ReadingInterval { .. } => LoopState::CheckingConfig,
        PhaseModel::ConnectingManager { .. } => LoopState::EnsuringServices,
        PhaseModel::OpeningService { .. } => LoopState::EnsuringServices,
        PhaseModel::QueryingService { .. } => LoopState::EnsuringServices,
        PhaseModel::StartingService { .. } => LoopState::EnsuringServices,
        PhaseModel::Sleeping { .. } => LoopState::Sleeping,
        PhaseModel::ExpandingValue { item, .. } => match item {
            ConfigItem::InitialDelay => LoopState::Starting,
            ConfigItem::WatchList => LoopState::CheckingConfig,
            ConfigItem::Interval => LoopState::CheckingConfig,
        },
        PhaseModel::Failed { .. } => LoopState::Terminated,
        PhaseModel::Finished => LoopState::Terminated,
    }
}

/// The well-formedness of a phase: a service index always points into the
/// watch list.
pub open spec fn phase_inv(p: PhaseModel) -> bool {
    match p {
        PhaseModel::OpeningService { names, index, .. } => 0 <= index < names.len(),
        PhaseModel::QueryingService { names, index, .. } => 0 <= index < names.len(),
        PhaseModel::StartingService { names, index, .. } => 0 <= index < names.len(),
        _ => true,
    }
}

/// The fatal condition for a failed read of a configuration value.
pub open spec fn fatal_read_failed(item: ConfigItem, code: u32) -> FatalModel {
    match item {
        ConfigItem::InitialDelay => FatalModel::InitialDelayReadFailed { code },
        ConfigItem::WatchList => FatalModel::WatchListReadFailed { code },
        ConfigItem::Interval => FatalModel::IntervalReadFailed { code },
    }
}

/// The fatal condition for a configuration value that would not decode.
pub open spec fn fatal_malformed(item: ConfigItem, error: CodecError) -> FatalModel {
    match item {
        ConfigItem::InitialDelay => FatalModel::InitialDelayMalformed { error },
        ConfigItem::WatchList => FatalModel::WatchListMalformed { error },
        ConfigItem::Interval => FatalModel::IntervalMalformed { error },
    }
}

/// The fatal condition for a configuration value of an unexpected kind.
pub open spec fn fatal_unexpected_type(item: ConfigItem) -> FatalModel {
    match item {
        ConfigItem::InitialDelay => FatalModel::InitialDelayUnexpectedType,
        ConfigItem::WatchList => FatalModel::WatchListUnexpectedType,
        ConfigItem::Interval => FatalModel::IntervalUnexpectedType,
    }
}

/// The phase after the watched service at `index` has been handled: the next
/// one in list order, or the regular sleep once the list is done.
pub open spec fn next_in_pass(names: Seq<Seq<u16>>, index: int, interval_ms: u64) -> PhaseModel {
    if index + 1 < names.len() {
        PhaseModel::OpeningService { names, index: index + 1, interval_ms }
    } else {
        PhaseModel::Sleeping { interval_ms }
    }
}

/// What decoding and interpreting a required watch-list value yields.
pub open spec fn watch_list_step(raw: RawValueModel) -> PhaseModel {
    match spec_decode(raw.tag, raw.bytes) {
        Err(error) => PhaseModel::Failed {
            error: fatal_malformed(ConfigItem::WatchList, error),
        },
        Ok(RawModel::NeedsExpansion(unexpanded)) => PhaseModel::ExpandingValue {
            item: ConfigItem::WatchList,
            unexpanded,
        },
        Ok(RawModel::Value(vm)) => match watch_list_of_value(vm) {
            Some(names) => PhaseModel::ReadingInterval { names },
            None => PhaseModel::Failed { error: fatal_unexpected_type(ConfigItem::WatchList) },
        },
    }
}

/// What decoding and interpreting a duration-valued configuration value
/// yields, given the phases for the success and failure outcomes.
pub open spec fn duration_step(item: ConfigItem, raw: RawValueModel, found: spec_fn(u64) -> PhaseModel) -> PhaseModel {
    match spec_decode(raw.tag, raw.bytes) {
        Err(error) => PhaseModel::Failed { error: fatal_malformed(item, error) },
        Ok(RawModel::NeedsExpansion(unexpanded)) => PhaseModel::ExpandingValue {
            item,
            unexpanded,
        },
        Ok(RawModel::Value(vm)) => match duration_of_value(vm) {
            Some(ms) => found(ms),
            None => PhaseModel::Failed { error: fatal_unexpected_type(item) },
        },
    }
}

/// The transition relation of the supervision loop, as a function from the
/// current phase and the event that answers its action to the next phase. A
/// terminal phase ignores every event, and an event that does not answer the
/// current phase's action leaves the phase unchanged.
pub open spec fn spec_step(p: PhaseModel, e: EventModel) -> PhaseModel {
    match (p, e) {
        (PhaseModel::OpeningConfig { first }, EventModel::ConfigOpened { result }) => match result {
            Ok(_) => if first {
                PhaseModel::ReadingInitialDelay
            } else {
                PhaseModel::ReadingWatchList
            },
            Err(code) => PhaseModel::Failed { error: FatalModel::ConfigOpenFailed { code } },
        },
        (PhaseModel::ReadingInitialDelay, EventModel::OptionalValueRead { result }) => match result {
            Err(code) => PhaseModel::Failed {
                error: FatalModel::InitialDelayReadFailed { code },
            },
            Ok(None) => PhaseModel::ReadingWatchList,
            Ok(Some(raw)) => duration_step(
                ConfigItem::InitialDelay,
                raw,
                |ms: u64| PhaseModel::WaitingInitialDelay { delay_ms: ms },
            ),
        },
        (PhaseModel::WaitingInitialDelay { .. }, EventModel::Waited { stop }) => if stop {
            PhaseModel::Finished
        } else {
            PhaseModel::ReadingWatchList
        },
        (PhaseModel::ReadingWatchList, EventModel::ValueRead { result }) => match result {
            Err(code) => PhaseModel::Failed { error: FatalModel::WatchListReadFailed { code } },
            Ok(raw) => watch_list_step(raw),
        },
        (PhaseModel::ReadingInterval { names }, EventModel::ValueRead { result }) => match result {
            Err(code) => PhaseModel::Failed { error: FatalModel::IntervalReadFailed { code } },
            Ok(raw) => duration_step(
                ConfigItem::Interval,
                raw,
                |ms: u64| PhaseModel::ConnectingManager { names, interval_ms: ms },
            ),
        },
        (
            PhaseModel::ConnectingManager { names, interval_ms },
            EventModel::ManagerConnected { result },
        ) => match result {
            Err(code) => PhaseModel::Failed { error: FatalModel::ManagerConnectFailed { code } },
            Ok(_) => if names.len() == 0 {
                PhaseModel::Sleeping { interval_ms }
            } else {
                PhaseModel::OpeningService { names, index: 0, interval_ms }
            },
        },
        (
            PhaseModel::OpeningService { names, index, interval_ms },
            EventModel::ServiceOpened { result },
        ) => match result {
            Err(code) => PhaseModel::Failed {
                error: FatalModel::ServiceOpenFailed { name: names[index], code },
            },
            Ok(_) => PhaseModel::QueryingService { names, index, interval_ms },
        },
        (
            PhaseModel::QueryingService { names, index, interval_ms },
            EventModel::StateQueried { result },
        ) => match result {
            Err(code) => PhaseModel::Failed {
                error: FatalModel::ServiceQueryFailed { name: names[index], code },
            },
            Ok(state) => if state == ServiceState::Stopped {
                PhaseModel::StartingService { names, index, interval_ms }
            } else {
                next_in_pass(names, index, interval_ms)
            },
        },
        (
            PhaseModel::StartingService { names, index, interval_ms },
            EventModel::StartIssued { result },
        ) => match result {
            Err(code) => PhaseModel::Failed {
                error: FatalModel::ServiceStartFailed { name: names[index], code },
            },
            Ok(_) => next_in_pass(names, index, interval_ms),
        },
        (PhaseModel::Sleeping { .. }, EventModel::Waited { stop }) => if stop {
            PhaseModel::Finished
        } else {
            PhaseModel::OpeningConfig { first: false }
        },
        (PhaseModel::ExpandingValue { item, .. }, EventModel::Expanded { result }) => match result {
            // An expansion that the host could not perform fails the decode
            // of the value, which is fatal.
            Err(code) => PhaseModel::Failed {
                error: fatal_malformed(item, CodecError::ExpansionError { code }),
            },
            // An expandable text is never a valid duration or watch list.
            Ok(_) => PhaseModel::Failed { error: fatal_unexpected_type(item) },
        },
        (_, _) => p,
    }
}

/// The action a phase asks the driver to perform.
pub open spec fn spec_next_action(p: PhaseModel) -> ActionModel {
    match p {
        PhaseModel::OpeningConfig { .. } => ActionModel::OpenConfig,
        PhaseModel::ReadingInitialDelay => ActionModel::ReadOptionalValue {
            item: ConfigItem::InitialDelay,
        },
        PhaseModel::WaitingInitialDelay { delay_ms } => ActionModel::Wait {
            timeout_ms: delay_ms,
        },
        PhaseModel::ReadingWatchList => ActionModel::ReadValue { item: ConfigItem::WatchList },
        PhaseModel::ReadingInterval { .. } => ActionModel::ReadValue {
            item: ConfigItem::Interval,
        },
        PhaseModel::ConnectingManager { .. } => ActionModel::ConnectManager,
        PhaseModel::OpeningService { names, index, .. } => ActionModel::OpenService {
            name: names[index],
        },
        PhaseModel::QueryingService { .. } => ActionModel::QueryServiceState,
        PhaseModel::StartingService { names, index, .. } => ActionModel::StartService {
            name: names[index],
        },
        PhaseModel::Sleeping { interval_ms } => ActionModel::Wait { timeout_ms: interval_ms },
        PhaseModel::ExpandingValue { unexpanded, .. } => ActionModel::ExpandText { unexpanded },
        PhaseModel::Failed { error } => ActionModel::ReportFailure { error },
        PhaseModel::Finished => ActionModel::ReportFinished,
    }
}

/// A queried service is sent a start command if and only if it reported
/// `Stopped`; any other reported state moves the pass on without one.
pub proof fn lemma_start_iff_stopped(
    names: Seq<Seq<u16>>,
    index: int,
    interval_ms: u64,
    state: ServiceState,
)
    ensures
        (spec_step(
            PhaseModel::QueryingService { names, index, interval_ms },
            EventModel::StateQueried { result: Ok(state) },
        ) is StartingService) <==> state == ServiceState::Stopped,
{
}

/// The machine asks for a service-manager operation only while it is ensuring
/// services; in particular, once configuration reading has failed, no
/// service-manager action is ever issued.
pub proof fn lemma_manager_actions_only_while_ensuring(p: PhaseModel)
    ensures
        (spec_next_action(p) is ConnectManager || spec_next_action(p) is OpenService
            || spec_next_action(p) is QueryServiceState || spec_next_action(p) is StartService)
            ==> loop_state_of(p) == LoopState::EnsuringServices,
{
}

/// A terminal phase stays terminal: no event moves the machine out of
/// `Failed` or `Finished`.
pub proof fn lemma_terminal_is_absorbing(p: PhaseModel, e: EventModel)
    requires
        loop_state_of(p) == LoopState::Terminated,
    ensures
        spec_step(p, e) == p,
{
}

/// Every transition preserves the phase's well-formedness.
pub proof fn lemma_step_preserves_inv(p: PhaseModel, e: EventModel)
    requires
        phase_inv(p),
    ensures
        phase_inv(spec_step(p, e)),
{
}

/// The supervision loop's state machine. Created once per run in its starting
/// phase, then driven by alternating [`Supervisor::next_action`] and
/// [`Supervisor::step`].
#[derive(Clone, Debug, PartialEq, Eq)]
pub struct Supervisor {
    phase: Phase,
}

impl View for Supervisor {
    type V = PhaseModel;

    closed spec fn view(&self) -> PhaseModel {
        self.phase@
    }
}

impl Supervisor {
    /// The machine's well-formedness; every constructor and step maintains
    /// it.
    pub open spec fn inv(&self) -> bool {
        phase_inv(self@)
    }

    /// A fresh machine, about to open the configuration for its first cycle.
    pub fn new() -> (r: Supervisor)
        ensures
            r@ == (PhaseModel::OpeningConfig { first: true }),
            r.inv(),
    {
        Supervisor { phase: Phase::OpeningConfig { first: true } }
    }

    /// The coarse state the machine is in.
    pub fn loop_state(&self) -> (r: LoopState)
        ensures
            r == loop_state_of(self@),
    {
        match &self.phase {
            Phase::OpeningConfig { first } => if *first {
                LoopState::Starting
            } else {
                LoopState::CheckingConfig
            },
            Phase::ReadingInitialDelay => LoopState::Starting,
            Phase::WaitingInitialDelay { .. } => LoopState::Starting,
            Phase::ReadingWatchList => LoopState::CheckingConfig,
            Phase::ReadingInterval { .. } => LoopState::CheckingConfig,
            Phase::ConnectingManager { .. } => LoopState::EnsuringServices,
            Phase::OpeningService { .. } => LoopState::EnsuringServices,
            Phase::QueryingService { .. } => LoopState::EnsuringServices,
            Phase::StartingService { .. } => LoopState::EnsuringServices,
            Phase::Sleeping { .. } => LoopState::Sleeping,
            Phase::ExpandingValue { item, .. } => match item {
                ConfigItem::InitialDelay => LoopState::Starting,
                ConfigItem::WatchList => LoopState::CheckingConfig,
                ConfigItem::Interval => LoopState::CheckingConfig,
            },
            Phase::Failed { .. } => LoopState::Terminated,
            Phase::Finished => LoopState::Terminated,
        }
    }

    /// Whether the loop has reached a terminal phase and returned control.
    pub fn is_terminated(&self) -> (r: bool)
        ensures
            r == (loop_state_of(self@) == LoopState::Terminated),
    {
        match &self.phase {
            Phase::Failed { .. } => true,
            Phase::Finished => true,
            _ => false,
        }
    }

    /// The action the driver is to perform next.
    pub fn next_action(&self) -> (a: Action)
        requires
            self.inv(),
        ensures
            a@ == spec_next_action(self@),
    {
        match &self.phase {
            Phase::OpeningConfig { .. } => Action::OpenConfig,
            Phase::ReadingInitialDelay => Action::ReadOptionalValue {
                item: ConfigItem::InitialDelay,
            },
            Phase::WaitingInitialDelay { delay_ms } => Action::Wait { timeout_ms: *delay_ms },
            Phase::ReadingWatchList => Action::ReadValue { item: ConfigItem::WatchList },
            Phase::ReadingInterval { .. } => Action::ReadValue { item: ConfigItem::Interval },
            Phase::ConnectingManager { .. } => Action::ConnectManager,
            Phase::OpeningService { names, index, .. } => {
                let name = names[*index].clone();
                proof {
                    assert(names.deep_view()[*index as int] =~= names@[*index as int]@);
                }
                Action::OpenService { name }
            },
            Phase::QueryingService { .. } => Action::QueryServiceState,
            Phase::StartingService { names, index, .. } => {
                let name = names[*index].clone();
                proof {
                    assert(names.deep_view()[*index as int] =~= names@[*index as int]@);
                }
                Action::StartService { name }
            },
            Phase::Sleeping { interval_ms } => Action::Wait { timeout_ms: *interval_ms },
            Phase::ExpandingValue { unexpanded, .. } => Action::ExpandText {
                unexpanded: unexpanded.clone(),
            },
            Phase::Failed { error } => Action::ReportFailure { error: error.clone() },
            Phase::Finished => Action::ReportFinished,
        }
    }

    /// Feeds the machine the outcome of the action it last asked for, and
    /// moves it to the next phase, exactly as [`spec_step`] says.
    pub fn step(self, event: Event) -> (r: Supervisor)
        requires
            self.inv(),
        ensures
            r@ == spec_step(self@, event@),
            r.inv(),
    {
        let ghost p = self@;
        let ghost e = event@;
        let phase = match (self.phase, event) {
            (Phase::OpeningConfig { first }, Event::ConfigOpened { result }) => match result {
                Ok(_) => if first {
                    Phase::ReadingInitialDelay
                } else {
                    Phase::ReadingWatchList
                },
                Err(code) => Phase::Failed { error: FatalError::ConfigOpenFailed { code } },
            },
            (Phase::ReadingInitialDelay, Event::OptionalValueRead { result }) => match result {
                Err(code) => Phase::Failed {
                    error: FatalError::InitialDelayReadFailed { code },
                },
                Ok(None) => Phase::ReadingWatchList,
                Ok(Some(raw)) => match RegistryValue::decode_raw(raw.tag, raw.bytes.as_slice()) {
                    Err(error) => Phase::Failed {
                        error: FatalError::InitialDelayMalformed { error },
                    },
                    Ok(RawDecode::NeedsExpansion(unexpanded)) => Phase::ExpandingValue {
                        item: ConfigItem::InitialDelay,
                        unexpanded,
                    },
                    Ok(RawDecode::Value(v)) => match duration_of(&v) {
                        Some(ms) => Phase::WaitingInitialDelay { delay_ms: ms },
                        None => Phase::Failed {
                            error: FatalError::InitialDelayUnexpectedType,
                        },
                    },
                },
            },
            (Phase::WaitingInitialDelay { .. }, Event::Waited { stop }) => if stop {
                Phase::Finished
            } else {
                Phase::ReadingWatchList
            },
            (Phase::ReadingWatchList, Event::ValueRead { result }) => match result {
                Err(code) => Phase::Failed { error: FatalError::WatchListReadFailed { code } },
                Ok(raw) => match RegistryValue::decode_raw(raw.tag, raw.bytes.as_slice()) {
                    Err(error) => Phase::Failed {
                        error: FatalError::WatchListMalformed { error },
                    },
                    Ok(RawDecode::NeedsExpansion(unexpanded)) => Phase::ExpandingValue {
                        item: ConfigItem::WatchList,
                        unexpanded,
                    },
                    Ok(RawDecode::Value(v)) => match into_watch_list(v) {
                        Some(names) => Phase::ReadingInterval { names },
                        None => Phase::Failed {
                            error: FatalError::WatchListUnexpectedType,
                        },
                    },
                },
            },
            (Phase::ReadingInterval { names }, Event::ValueRead { result }) => match result {
                Err(code) => Phase::Failed { error: FatalError::IntervalReadFailed { code } },
                Ok(raw) => match RegistryValue::decode_raw(raw.tag, raw.bytes.as_slice()) {
                    Err(error) => Phase::Failed {
                        error: FatalError::IntervalMalformed { error },
                    },
                    Ok(RawDecode::NeedsExpansion(unexpanded)) => Phase::ExpandingValue {
                        item: ConfigItem::Interval,
                        unexpanded,
                    },
                    Ok(RawDecode::Value(v)) => match duration_of(&v) {
                        Some(ms) => Phase::ConnectingManager { names, interval_ms: ms },
                        None => Phase::Failed {
                            error: FatalError::IntervalUnexpectedType,
                        },
                    },
                },
            },
            (
                Phase::ConnectingManager { names, interval_ms },
                Event::ManagerConnected { result },
            ) => match result {
                Err(code) => Phase::Failed { error: FatalError::ManagerConnectFailed { code } },
                Ok(_) => if names.len() == 0 {
                    Phase::Sleeping { interval_ms }
                } else {
                    Phase::OpeningService { names, index: 0, interval_ms }
                },
            },
            (
                Phase::OpeningService { names, index, interval_ms },
                Event::ServiceOpened { result },
            ) => match result {
                Err(code) => {
                    let name = names[index].clone();
                    proof {
                        assert(names.deep_view()[index as int] =~= names@[index as int]@);
                    }
                    Phase::Failed { error: FatalError::ServiceOpenFailed { name, code } }
                },
                Ok(_) => Phase::QueryingService { names, index, interval_ms },
            },
            (
                Phase::QueryingService { names, index, interval_ms },
                Event::StateQueried { result },
            ) => match result {
                Err(code) => {
                    let name = names[index].clone();
                    proof {
                        assert(names.deep_view()[index as int] =~= names@[index as int]@);
                    }
                    Phase::Failed { error: FatalError::ServiceQueryFailed { name, code } }
                },
                Ok(state) => if state == ServiceState::Stopped {
                    Phase::StartingService { names, index, interval_ms }
                } else {
                    Self::next_in_pass_exec(names, index, interval_ms)
                },
            },
            (
                Phase::StartingService { names, index, interval_ms },
                Event::StartIssued { result },
            ) => match result {
                Err(code) => {
                    let name = names[index].clone();
                    proof {
                        assert(names.deep_view()[index as int] =~= names@[index as int]@);
                    }
                    Phase::Failed { error: FatalError::ServiceStartFailed { name, code } }
                },
                Ok(_) => Self::next_in_pass_exec(names, index, interval_ms),
            },
            (Phase::Sleeping { .. }, Event::Waited { stop }) => if stop {
                Phase::Finished
            } else {
                Phase::OpeningConfig { first: false }
            },
            (Phase::ExpandingValue { item, .. }, Event::Expanded { result }) => match result {
                Err(code) => match item {
                    ConfigItem::InitialDelay => Phase::Failed {
                        error: FatalError::InitialDelayMalformed {
                            error: CodecError::ExpansionError { code },
                        },
                    },
                    ConfigItem::WatchList => Phase::Failed {
                        error: FatalError::WatchListMalformed {
                            error: CodecError::ExpansionError { code },
                        },
                    },
                    ConfigItem::Interval => Phase::Failed {
                        error: FatalError::IntervalMalformed {
                            error: CodecError::ExpansionError { code },
                        },
                    },
                },
                Ok(_) => match item {
                    ConfigItem::InitialDelay => Phase::Failed {
                        error: FatalError::InitialDelayUnexpectedType,
                    },
                    ConfigItem::WatchList => Phase::Failed {
                        error: FatalError::WatchListUnexpectedType,
                    },
                    ConfigItem::Interval => Phase::Failed {
                        error: FatalError::IntervalUnexpectedType,
                    },
                },
            },
            (phase, _) => phase,
        };
        Supervisor { phase }
    }

    /// Moves a service pass to the next entry, or to the regular sleep once
    /// the list is done.
    fn next_in_pass_exec(names: Vec<Vec<u16>>, index: usize, interval_ms: u64) -> (r: Phase)
        requires
            index < names.deep_view().len(),
        ensures
            r@ == next_in_pass(names.deep_view(), index as int, interval_ms),
            phase_inv(r@),
    {
        proof {
            assert(names.deep_view().len() == names@.len());
        }
        let len = names.len();
        if index + 1 < len {
            Phase::OpeningService { names, index: index + 1, interval_ms }
        } else {
            Phase::Sleeping { interval_ms }
        }
    }
}

} // verus!
