//! Wrappers for the Power State Coordination Interface.
//!
//! Every wrapper places one firmware request through a conduit and decodes
//! the reply. Its contract names the request (function identifier and
//! argument words) and says how the result follows from the reply; the
//! decoding of a reply is also offered on its own, as a function of the reply.
use crate::smccc::{SmcccCall32, SmcccCall64};
use core::time::Duration;
use vstd::prelude::*;
use vstd::std_specs::convert::FromSpecImpl;

verus! {

/// The power-management calls. Each is generic over the conduit.
pub struct Psci;

/// Why a power-management call failed.
#[derive(Debug, Clone, Copy, PartialEq, Eq, Structural)]
pub enum PsciError {
    NotSupported,
    InvalidParameters,
    Denied,
    AlreadyOn,
    OnPending,
    InternalFailure,
    NotPresent,
    Disabled,
    InvalidAddress,
    /// A return code outside the named ones, kept as it came.
    Other(i64),
}

impl PsciError {
    /// The error kind that stands for the return code `code`.
    pub open spec fn of_code(code: int) -> PsciError {
        if code == -1 {
            PsciError::NotSupported
        } else if code == -2 {
            PsciError::InvalidParameters
        } else if code == -3 {
            PsciError::Denied
        } else if code == -4 {
            PsciError::AlreadyOn
        } else if code == -5 {
            PsciError::OnPending
        } else if code == -6 {
            PsciError::InternalFailure
        } else if code == -7 {
            PsciError::NotPresent
        } else if code == -8 {
            PsciError::Disabled
        } else if code == -9 {
            PsciError::InvalidAddress
        } else {
            PsciError::Other(code as i64)
        }
    }
}

impl From<i64> for PsciError {
    fn from(value: i64) -> (r: Self) {
        match value {
            -1 => PsciError::NotSupported,
            -2 => PsciError::InvalidParameters,
            -3 => PsciError::Denied,
            -4 => PsciError::AlreadyOn,
            -5 => PsciError::OnPending,
            -6 => PsciError::InternalFailure,
            -7 => PsciError::NotPresent,
            -8 => PsciError::Disabled,
            -9 => PsciError::InvalidAddress,
            _ => PsciError::Other(value),
        }
    }
}

impl FromSpecImpl<i64> for PsciError {
    open spec fn obeys_from_spec() -> bool {
        true
    }

    open spec fn from_spec(value: i64) -> Self {
        PsciError::of_code(value as int)
    }
}

impl From<i32> for PsciError {
    fn from(value: i32) -> (r: Self) {
        match value {
            -1 => PsciError::NotSupported,
            -2 => PsciError::InvalidParameters,
            -3 => PsciError::Denied,
            -4 => PsciError::AlreadyOn,
            -5 => PsciError::OnPending,
            -6 => PsciError::InternalFailure,
            -7 => PsciError::NotPresent,
            -8 => PsciError::Disabled,
            -9 => PsciError::InvalidAddress,
            _ => PsciError::Other(value as i64),
        }
    }
}

impl FromSpecImpl<i32> for PsciError {
    open spec fn obeys_from_spec() -> bool {
        true
    }

    open spec fn from_spec(value: i32) -> Self {
        PsciError::of_code(value as int)
    }
}

/// The version that the firmware implements.
#[derive(Debug, Clone, Copy, PartialEq, Eq, Structural)]
pub struct PsciVersion {
    pub major: usize,
    pub minor: usize,
}

impl PsciVersion {
    /// The version held in a reply word: the minor version in the low
    /// sixteen bits, the major version in the fifteen bits above them.
    pub open spec fn of_word(word: u32) -> PsciVersion {
        PsciVersion {
            major: ((word as int / 0x1_0000) % 0x8000) as usize,
            minor: (word as int % 0x1_0000) as usize,
        }
    }

    /// Decodes the version from a reply word.
    pub fn from_word(word: u32) -> (r: Self)
        ensures
            r == Self::of_word(word),
    {
        PsciVersion {
            major: ((word / 0x1_0000) % 0x8000) as usize,
            minor: (word % 0x1_0000) as usize,
        }
    }
}

/// The power state of an affinity instance.
#[derive(Debug, Clone, Copy, PartialEq, Eq, Structural)]
pub enum AffinityInfo {
    On,
    Off,
    OnPending,
    Other(u64),
}

impl AffinityInfo {
    /// The state that the reply word `word` stands for.
    pub open spec fn of_word(word: u64) -> AffinityInfo {
        if word == 0 {
            AffinityInfo::On
        } else if word == 1 {
            AffinityInfo::Off
        } else if word == 2 {
            AffinityInfo::OnPending
        } else {
            AffinityInfo::Other(word)
        }
    }
}

impl From<u32> for AffinityInfo {
    fn from(value: u32) -> (r: Self) {
        match value {
            0 => AffinityInfo::On,
            1 => AffinityInfo::Off,
            2 => AffinityInfo::OnPending,
            other => AffinityInfo::Other(other as u64),
        }
    }
}

impl FromSpecImpl<u32> for AffinityInfo {
    open spec fn obeys_from_spec() -> bool {
        true
    }

    open spec fn from_spec(value: u32) -> Self {
        AffinityInfo::of_word(value as u64)
    }
}

impl From<u64> for AffinityInfo {
    fn from(value: u64) -> (r: Self) {
        match value {
            0 => AffinityInfo::On,
            1 => AffinityInfo::Off,
            2 => AffinityInfo::OnPending,
            other => AffinityInfo::Other(other),
        }
    }
}

impl FromSpecImpl<u64> for AffinityInfo {
    open spec fn obeys_from_spec() -> bool {
        true
    }

    open spec fn from_spec(value: u64) -> Self {
        AffinityInfo::of_word(value)
    }
}

/// Whether the trusted operating system can be migrated.
#[derive(Debug, Clone, Copy, PartialEq, Eq, Structural)]
pub enum MigrateInfoType {
    UniprocessorMigrateCapable,
    UniprocessorNotMigrateCapable,
    MigrateNotRequired,
    Other(u32),
}

impl MigrateInfoType {
    /// The migration type that the reply word `word` stands for.
    pub open spec fn of_word(word: u32) -> MigrateInfoType {
        if word == 0 {
            MigrateInfoType::UniprocessorMigrateCapable
        } else if word == 1 {
            MigrateInfoType::UniprocessorNotMigrateCapable
        } else if word == 2 {
            MigrateInfoType::MigrateNotRequired
        } else {
            MigrateInfoType::Other(word)
        }
    }
}

impl From<u32> for MigrateInfoType {
    fn from(value: u32) -> (r: Self) {
        match value {
            0 => MigrateInfoType::UniprocessorMigrateCapable,
            1 => MigrateInfoType::UniprocessorNotMigrateCapable,
            2 => MigrateInfoType::MigrateNotRequired,
            other => MigrateInfoType::Other(other),
        }
    }
}

impl FromSpecImpl<u32> for MigrateInfoType {
    open spec fn obeys_from_spec() -> bool {
        true
    }

    open spec fn from_spec(value: u32) -> Self {
        MigrateInfoType::of_word(value)
    }
}

/// The hardware state of a node in the power hierarchy.
#[derive(Debug, Clone, Copy, PartialEq, Eq, Structural)]
pub enum NodeHwState {
    HwOn,
    HwOff,
    HwStandby,
    Other(u64),
}

impl NodeHwState {
    /// The hardware state that the reply word `word` stands for.
    pub open spec fn of_word(word: u64) -> NodeHwState {
        if word == 0 {
            NodeHwState::HwOn
        } else if word == 1 {
            NodeHwState::HwOff
        } else if word == 2 {
            NodeHwState::HwStandby
        } else {
            NodeHwState::Other(word)
        }
    }
}

impl From<u32> for NodeHwState {
    fn from(value: u32) -> (r: Self) {
        match value {
            0 => NodeHwState::HwOn,
            1 => NodeHwState::HwOff,
            2 => NodeHwState::HwStandby,
            other => NodeHwState::Other(other as u64),
        }
    }
}

impl FromSpecImpl<u32> for NodeHwState {
    open spec fn obeys_from_spec() -> bool {
        true
    }

    open spec fn from_spec(value: u32) -> Self {
        NodeHwState::of_word(value as u64)
    }
}

impl From<u64> for NodeHwState {
    fn from(value: u64) -> (r: Self) {
        match value {
            0 => NodeHwState::HwOn,
            1 => NodeHwState::HwOff,
            2 => NodeHwState::HwStandby,
            other => NodeHwState::Other(other),
        }
    }
}

impl FromSpecImpl<u64> for NodeHwState {
    open spec fn obeys_from_spec() -> bool {
        true
    }

    open spec fn from_spec(value: u64) -> Self {
        NodeHwState::of_word(value)
    }
}

/// Who coordinates suspend requests.
#[derive(Debug, Clone, Copy, PartialEq, Eq, Structural)]
pub enum SuspendMode {
    Platform,
    OS,
}

impl SuspendMode {
    /// The argument word that selects the mode.
    pub open spec fn code(self) -> u32 {
        match self {
            SuspendMode::Platform => 0,
            SuspendMode::OS => 1,
        }
    }
}

impl From<SuspendMode> for u32 {
    fn from(value: SuspendMode) -> (r: Self) {
        match value {
            SuspendMode::Platform => 0,
            SuspendMode::OS => 1,
        }
    }
}

impl FromSpecImpl<SuspendMode> for u32 {
    open spec fn obeys_from_spec() -> bool {
        true
    }

    open spec fn from_spec(value: SuspendMode) -> Self {
        value.code()
    }
}

/// A flag as an argument word: one for `true`, zero for `false`.
pub open spec fn flag_word(flag: bool) -> u32 {
    if flag {
        1
    } else {
        0
    }
}

/// The leading argument words of a request with one argument.
pub open spec fn lead1<W>(first: W) -> Seq<W> {
    Seq::empty().push(first)
}

/// The leading argument words of a request with two arguments.
pub open spec fn lead2<W>(first: W, second: W) -> Seq<W> {
    Seq::empty().push(first).push(second)
}

/// The leading argument words of a request with three arguments.
pub open spec fn lead3<W>(first: W, second: W, third: W) -> Seq<W> {
    Seq::empty().push(first).push(second).push(third)
}

/// The seven argument words of a 32-bit request: `lead`, then zeros.
pub open spec fn args_of32(lead: Seq<u32>) -> Seq<u32> {
    Seq::new(7, |i: int| if i < lead.len() { lead[i] } else { 0u32 })
}

/// The seventeen argument words of a 64-bit request: `lead`, then zeros.
pub open spec fn args_of64(lead: Seq<u64>) -> Seq<u64> {
    Seq::new(17, |i: int| if i < lead.len() { lead[i] } else { 0u64 })
}

/// The result of a 32-bit call: on success `value` of the first reply word,
/// on failure the error kind of the return code.
pub open spec fn outcome32<V>(reply: Result<[u32; 8], i32>, value: spec_fn(u32) -> V) -> Result<
    V,
    PsciError,
> {
    match reply {
        Ok(words) => Ok(value(words@[0])),
        Err(code) => Err(PsciError::of_code(code as int)),
    }
}

/// The result of a 64-bit call: on success `value` of the first reply word,
/// on failure the error kind of the return code.
pub open spec fn outcome64<V>(reply: Result<[u64; 18], i64>, value: spec_fn(u64) -> V) -> Result<
    V,
    PsciError,
> {
    match reply {
        Ok(words) => Ok(value(words@[0])),
        Err(code) => Err(PsciError::of_code(code as int)),
    }
}

/// The time span of `micros` microseconds: what
/// `core::time::Duration::from_micros` gives for that number.
pub uninterp spec fn span_of_micros(micros: u64) -> Duration;

/// `core::time::Duration::from_micros`: the time span of `micros`
/// microseconds. The function takes every number and gives the same span
/// for the same number; the contract names that span.
#[verifier::external_body]
fn duration_from_micros(micros: u64) -> (span: Duration)
    ensures
        span == span_of_micros(micros),
{
    Duration::from_micros(micros)
}


impl Psci {
    /// Decodes a 32-bit reply that carries no value.
    pub fn done32(reply: Result<[u32; 8], i32>) -> (r: Result<(), PsciError>)
        ensures
            r == outcome32(reply, |word: u32| ()),
    {
        match reply {
            Ok(_) => Ok(()),
            Err(code) => Err(PsciError::from(code)),
        }
    }

    /// Decodes a 64-bit reply that carries no value.
    pub fn done64(reply: Result<[u64; 18], i64>) -> (r: Result<(), PsciError>)
        ensures
            r == outcome64(reply, |word: u64| ()),
    {
        match reply {
            Ok(_) => Ok(()),
            Err(code) => Err(PsciError::from(code)),
        }
    }

    /// Decodes a 32-bit reply whose first word is the value.
    pub fn word32(reply: Result<[u32; 8], i32>) -> (r: Result<u32, PsciError>)
        ensures
            r == outcome32(reply, |word: u32| word),
    {
        match reply {
            Ok(words) => Ok(words[0]),
            Err(code) => Err(PsciError::from(code)),
        }
    }

    /// Decodes a 64-bit reply whose first word is the value.
    pub fn word64(reply: Result<[u64; 18], i64>) -> (r: Result<u64, PsciError>)
        ensures
            r == outcome64(reply, |word: u64| word),
    {
        match reply {
            Ok(words) => Ok(words[0]),
            Err(code) => Err(PsciError::from(code)),
        }
    }

    /// Decodes the reply to a version request.
    pub fn version_of(reply: Result<[u32; 8], i32>) -> (r: Result<PsciVersion, PsciError>)
        ensures
            r == outcome32(reply, |word: u32| PsciVersion::of_word(word)),
    {
        match reply {
            Ok(words) => Ok(PsciVersion::from_word(words[0])),
            Err(code) => Err(PsciError::from(code)),
        }
    }

    /// Decodes a 32-bit reply that carries an affinity state.
    pub fn affinity_of32(reply: Result<[u32; 8], i32>) -> (r: Result<AffinityInfo, PsciError>)
        ensures
            r == outcome32(reply, |word: u32| AffinityInfo::of_word(word as u64)),
    {
        match reply {
            Ok(words) => Ok(AffinityInfo::from(words[0])),
            Err(code) => Err(PsciError::from(code)),
        }
    }

    /// Decodes a 64-bit reply that carries an affinity state.
    pub fn affinity_of64(reply: Result<[u64; 18], i64>) -> (r: Result<AffinityInfo, PsciError>)
        ensures
            r == outcome64(reply, |word: u64| AffinityInfo::of_word(word)),
    {
        match reply {
            Ok(words) => Ok(AffinityInfo::from(words[0])),
            Err(code) => Err(PsciError::from(code)),
        }
    }

    /// Decodes the reply to a migration-type request.
    pub fn migrate_type_of(reply: Result<[u32; 8], i32>) -> (r: Result<MigrateInfoType, PsciError>)
        ensures
            r == outcome32(reply, |word: u32| MigrateInfoType::of_word(word)),
    {
        match reply {
            Ok(words) => Ok(MigrateInfoType::from(words[0])),
            Err(code) => Err(PsciError::from(code)),
        }
    }

    /// Decodes a 32-bit reply that carries a hardware state.
    pub fn node_state_of32(reply: Result<[u32; 8], i32>) -> (r: Result<NodeHwState, PsciError>)
        ensures
            r == outcome32(reply, |word: u32| NodeHwState::of_word(word as u64)),
    {
        match reply {
            Ok(words) => Ok(NodeHwState::from(words[0])),
            Err(code) => Err(PsciError::from(code)),
        }
    }

    /// Decodes a 64-bit reply that carries a hardware state.
    pub fn node_state_of64(reply: Result<[u64; 18], i64>) -> (r: Result<NodeHwState, PsciError>)
        ensures
            r == outcome64(reply, |word: u64| NodeHwState::of_word(word)),
    {
        match reply {
            Ok(words) => Ok(NodeHwState::from(words[0])),
            Err(code) => Err(PsciError::from(code)),
        }
    }

    /// The residency in microseconds that a 32-bit reply carries.
    pub fn residency_micros32(reply: Result<[u32; 8], i32>) -> (r: Result<u64, PsciError>)
        ensures
            r == outcome32(reply, |word: u32| word as u64),
    {
        match reply {
            Ok(words) => Ok(words[0] as u64),
            Err(code) => Err(PsciError::from(code)),
        }
    }

    /// Decodes a 32-bit reply that carries a residency time: the first
    /// word, widened, is the time in microseconds.
    pub fn residency_of32(reply: Result<[u32; 8], i32>) -> (r: Result<Duration, PsciError>)
        ensures
            r == outcome32(reply, |word: u32| span_of_micros(word as u64)),
    {
        match Self::residency_micros32(reply) {
            Ok(micros) => Ok(duration_from_micros(micros)),
            Err(error) => Err(error),
        }
    }

    /// Decodes a 64-bit reply that carries a residency time: the first
    /// word is the time in microseconds.
    pub fn residency_of64(reply: Result<[u64; 18], i64>) -> (r: Result<Duration, PsciError>)
        ensures
            r == outcome64(reply, |word: u64| span_of_micros(word)),
    {
        match Self::word64(reply) {
            Ok(micros) => Ok(duration_from_micros(micros)),
            Err(error) => Err(error),
        }
    }

    /// Asks for the version of the interface that the firmware implements.
    ///
    /// Places the request `PSCI_VERSION` and decodes the reply that comes back.
    pub fn version<C: SmcccCall32>() -> (r: Result<PsciVersion, PsciError>)
        ensures
            exists|reply: Result<[u32; 8], i32>|
                #[trigger] C::answers(PSCI_VERSION, args_of32(Seq::<u32>::empty()), reply)
                    && r == outcome32(reply, |word: u32| PsciVersion::of_word(word)),
    {
        let args: [u32; 7] = [0, 0, 0, 0, 0, 0, 0];
        assert(args@ =~= args_of32(Seq::<u32>::empty()));
        let reply = C::call(PSCI_VERSION, args);
        Self::version_of(reply)
    }

    /// Suspends the calling core to the given power state.
    ///
    /// Places the request `PSCI_CPU_SUSPEND_32` and decodes the reply that comes back.
    pub fn cpu_suspend_32<C: SmcccCall32>(
        power_state: u32,
        entry_point_addr: u32,
        context_id: u32,
    ) -> (r: Result<(), PsciError>)
        ensures
            exists|reply: Result<[u32; 8], i32>|
                #[trigger] C::answers(
                    PSCI_CPU_SUSPEND_32,
                    args_of32(lead3(power_state, entry_point_addr, context_id)),
                    reply,
                ) && r == outcome32(reply, |word: u32| ()),
    {
        let args: [u32; 7] = [power_state, entry_point_addr, context_id, 0, 0, 0, 0];
        assert(args@ =~= args_of32(lead3(power_state, entry_point_addr, context_id)));
        let reply = C::call(PSCI_CPU_SUSPEND_32, args);
        Self::done32(reply)
    }

    /// Suspends the calling core to the given power state.
    ///
    /// Places the request `PSCI_CPU_SUSPEND_64` and decodes the reply that comes back.
    pub fn cpu_suspend_64<C: SmcccCall64>(
        power_state: u32,
        entry_point_addr: u64,
        context_id: u64,
    ) -> (r: Result<(), PsciError>)
        ensures
            exists|reply: Result<[u64; 18], i64>|
                #[trigger] C::answers(
                    PSCI_CPU_SUSPEND_64,
                    args_of64(lead3(power_state as u64, entry_point_addr, context_id)),
                    reply,
                ) && r == outcome64(reply, |word: u64| ()),
    {
        let args: [u64; 17] = [
            power_state as u64,
            entry_point_addr,
            context_id,
            0,
            0,
            0,
            0,
            0,
            0,
            0,
            0,
            0,
            0,
            0,
            0,
            0,
            0,
        ];
        assert(args@ =~= args_of64(lead3(power_state as u64, entry_point_addr, context_id)));
        let reply = C::call(PSCI_CPU_SUSPEND_64, args);
        Self::done64(reply)
    }

    /// Powers the calling core down.
    ///
    /// Places the request `PSCI_CPU_OFF` and decodes the reply that comes back.
    pub fn cpu_off<C: SmcccCall32>() -> (r: Result<(), PsciError>)
        ensures
            exists|reply: Result<[u32; 8], i32>|
                #[trigger] C::answers(PSCI_CPU_OFF, args_of32(Seq::<u32>::empty()), reply)
                    && r == outcome32(reply, |word: u32| ()),
    {
        let args: [u32; 7] = [0, 0, 0, 0, 0, 0, 0];
        assert(args@ =~= args_of32(Seq::<u32>::empty()));
        let reply = C::call(PSCI_CPU_OFF, args);
        Self::done32(reply)
    }

    /// Powers a core up and starts it at the entry point.
    ///
    /// Places the request `PSCI_CPU_ON_32` and decodes the reply that comes back.
    pub fn cpu_on_32<C: SmcccCall32>(
        target_cpu: u32,
        entry_point_addr: u32,
        context_id: u32,
    ) -> (r: Result<(), PsciError>)
        ensures
            exists|reply: Result<[u32; 8], i32>|
                #[trigger] C::answers(
                    PSCI_CPU_ON_32,
                    args_of32(lead3(target_cpu, entry_point_addr, context_id)),
                    reply,
                ) && r == outcome32(reply, |word: u32| ()),
    {
        let args: [u32; 7] = [target_cpu, entry_point_addr, context_id, 0, 0, 0, 0];
        assert(args@ =~= args_of32(lead3(target_cpu, entry_point_addr, context_id)));
        let reply = C::call(PSCI_CPU_ON_32, args);
        Self::done32(reply)
    }

    /// Powers a core up and starts it at the entry point.
    ///
    /// Places the request `PSCI_CPU_ON_64` and decodes the reply that comes back.
    pub fn cpu_on_64<C: SmcccCall64>(
        target_cpu: u64,
        entry_point_addr: u64,
        context_id: u64,
    ) -> (r: Result<(), PsciError>)
        ensures
            exists|reply: Result<[u64; 18], i64>|
                #[trigger] C::answers(
                    PSCI_CPU_ON_64,
                    args_of64(lead3(target_cpu, entry_point_addr, context_id)),
                    reply,
                ) && r == outcome64(reply, |word: u64| ()),
    {
        let args: [u64; 17] = [
            target_cpu,
            entry_point_addr,
            context_id,
            0,
            0,
            0,
            0,
            0,
            0,
            0,
            0,
            0,
            0,
            0,
            0,
            0,
            0,
        ];
        assert(args@ =~= args_of64(lead3(target_cpu, entry_point_addr, context_id)));
        let reply = C::call(PSCI_CPU_ON_64, args);
        Self::done64(reply)
    }

    /// Asks for the power state of an affinity instance.
    ///
    /// Places the request `PSCI_AFFINITY_INFO_32` and decodes the reply that comes back.
    pub fn affinity_info_32<C: SmcccCall32>(
        target_affinity: u32,
        lowest_affinity_level: u32,
    ) -> (r: Result<AffinityInfo, PsciError>)
        ensures
            exists|reply: Result<[u32; 8], i32>|
                #[trigger] C::answers(
                    PSCI_AFFINITY_INFO_32,
                    args_of32(lead2(target_affinity, lowest_affinity_level)),
                    reply,
                ) && r == outcome32(reply, |word: u32| AffinityInfo::of_word(word as u64)),
    {
        let args: [u32; 7] = [target_affinity, lowest_affinity_level, 0, 0, 0, 0, 0];
        assert(args@ =~= args_of32(lead2(target_affinity, lowest_affinity_level)));
        let reply = C::call(PSCI_AFFINITY_INFO_32, args);
        Self::affinity_of32(reply)
    }

    /// Asks for the power state of an affinity instance.
    ///
    /// Places the request `PSCI_AFFINITY_INFO_64` and decodes the reply that comes back.
    pub fn affinity_info_64<C: SmcccCall64>(
        target_affinity: u64,
        lowest_affinity_level: u32,
    ) -> (r: Result<AffinityInfo, PsciError>)
        ensures
            exists|reply: Result<[u64; 18], i64>|
                #[trigger] C::answers(
                    PSCI_AFFINITY_INFO_64,
                    args_of64(lead2(target_affinity, lowest_affinity_level as u64)),
                    reply,
                ) && r == outcome64(reply, |word: u64| AffinityInfo::of_word(word)),
    {
        let args: [u64; 17] = [
            target_affinity,
            lowest_affinity_level as u64,
            0,
            0,
            0,
            0,
            0,
            0,
            0,
            0,
            0,
            0,
            0,
            0,
            0,
            0,
            0,
        ];
        assert(args@ =~= args_of64(lead2(target_affinity, lowest_affinity_level as u64)));
        let reply = C::call(PSCI_AFFINITY_INFO_64, args);
        Self::affinity_of64(reply)
    }

    /// Asks the trusted operating system to move to another core.
    ///
    /// Places the request `PSCI_MIGRATE_32` and decodes the reply that comes back.
    pub fn migrate_32<C: SmcccCall32>(target_cpu: u32) -> (r: Result<AffinityInfo, PsciError>)
        ensures
            exists|reply: Result<[u32; 8], i32>|
                #[trigger] C::answers(PSCI_MIGRATE_32, args_of32(lead1(target_cpu)), reply)
                    && r == outcome32(reply, |word: u32| AffinityInfo::of_word(word as u64)),
    {
        let args: [u32; 7] = [target_cpu, 0, 0, 0, 0, 0, 0];
        assert(args@ =~= args_of32(lead1(target_cpu)));
        let reply = C::call(PSCI_MIGRATE_32, args);
        Self::affinity_of32(reply)
    }

    /// Asks the trusted operating system to move to another core.
    ///
    /// Places the request `PSCI_MIGRATE_64` and decodes the reply that comes back.
    pub fn migrate_64<C: SmcccCall64>(target_cpu: u64) -> (r: Result<AffinityInfo, PsciError>)
        ensures
            exists|reply: Result<[u64; 18], i64>|
                #[trigger] C::answers(PSCI_MIGRATE_64, args_of64(lead1(target_cpu)), reply)
                    && r == outcome64(reply, |word: u64| AffinityInfo::of_word(word)),
    {
        let args: [u64; 17] = [target_cpu, 0, 0, 0, 0, 0, 0, 0, 0, 0, 0, 0, 0, 0, 0, 0, 0];
        assert(args@ =~= args_of64(lead1(target_cpu)));
        let reply = C::call(PSCI_MIGRATE_64, args);
        Self::affinity_of64(reply)
    }

    /// Asks whether the trusted operating system can be migrated.
    ///
    /// Places the request `PSCI_MIGRATE_INFO_TYPE` and decodes the reply that comes back.
    pub fn migrate_info_type_32<C: SmcccCall32>() -> (r: Result<MigrateInfoType, PsciError>)
        ensures
            exists|reply: Result<[u32; 8], i32>|
                #[trigger] C::answers(PSCI_MIGRATE_INFO_TYPE, args_of32(Seq::<u32>::empty()), reply)
                    && r == outcome32(reply, |word: u32| MigrateInfoType::of_word(word)),
    {
        let args: [u32; 7] = [0, 0, 0, 0, 0, 0, 0];
        assert(args@ =~= args_of32(Seq::<u32>::empty()));
        let reply = C::call(PSCI_MIGRATE_INFO_TYPE, args);
        Self::migrate_type_of(reply)
    }

    /// Asks on which core the trusted operating system resides.
    ///
    /// Places the request `PSCI_MIGRATE_INFO_UP_CPU_32` and decodes the reply that comes back.
    pub fn migrate_info_up_cpu_32<C: SmcccCall32>() -> (r: Result<u32, PsciError>)
        ensures
            exists|reply: Result<[u32; 8], i32>|
                #[trigger] C::answers(
                    PSCI_MIGRATE_INFO_UP_CPU_32,
                    args_of32(Seq::<u32>::empty()),
                    reply,
                ) && r == outcome32(reply, |word: u32| word),
    {
        let args: [u32; 7] = [0, 0, 0, 0, 0, 0, 0];
        assert(args@ =~= args_of32(Seq::<u32>::empty()));
        let reply = C::call(PSCI_MIGRATE_INFO_UP_CPU_32, args);
        Self::word32(reply)
    }

    /// Asks on which core the trusted operating system resides.
    ///
    /// Places the request `PSCI_MIGRATE_INFO_UP_CPU_64` and decodes the reply that comes back.
    pub fn migrate_info_up_cpu_64<C: SmcccCall64>() -> (r: Result<u64, PsciError>)
        ensures
            exists|reply: Result<[u64; 18], i64>|
                #[trigger] C::answers(
                    PSCI_MIGRATE_INFO_UP_CPU_64,
                    args_of64(Seq::<u64>::empty()),
                    reply,
                ) && r == outcome64(reply, |word: u64| word),
    {
        let args: [u64; 17] = [0, 0, 0, 0, 0, 0, 0, 0, 0, 0, 0, 0, 0, 0, 0, 0, 0];
        assert(args@ =~= args_of64(Seq::<u64>::empty()));
        let reply = C::call(PSCI_MIGRATE_INFO_UP_CPU_64, args);
        Self::word64(reply)
    }

    /// Shuts the system down.
    ///
    /// Places the request `PSCI_SYSTEM_OFF` and decodes the reply that comes back.
    pub fn system_off<C: SmcccCall32>() -> (r: Result<(), PsciError>)
        ensures
            exists|reply: Result<[u32; 8], i32>|
                #[trigger] C::answers(PSCI_SYSTEM_OFF, args_of32(Seq::<u32>::empty()), reply)
                    && r == outcome32(reply, |word: u32| ()),
    {
        let args: [u32; 7] = [0, 0, 0, 0, 0, 0, 0];
        assert(args@ =~= args_of32(Seq::<u32>::empty()));
        let reply = C::call(PSCI_SYSTEM_OFF, args);
        Self::done32(reply)
    }

    /// Resets the system.
    ///
    /// Places the request `PSCI_SYSTEM_RESET` and decodes the reply that comes back.
    pub fn system_reset<C: SmcccCall32>() -> (r: Result<(), PsciError>)
        ensures
            exists|reply: Result<[u32; 8], i32>|
                #[trigger] C::answers(PSCI_SYSTEM_RESET, args_of32(Seq::<u32>::empty()), reply)
                    && r == outcome32(reply, |word: u32| ()),
    {
        let args: [u32; 7] = [0, 0, 0, 0, 0, 0, 0];
        assert(args@ =~= args_of32(Seq::<u32>::empty()));
        let reply = C::call(PSCI_SYSTEM_RESET, args);
        Self::done32(reply)
    }

    /// Resets the system in the given way.
    ///
    /// Places the request `PSCI_SYSTEM_RESET2_32` and decodes the reply that comes back.
    pub fn system_reset2_32<C: SmcccCall32>(
        reset_type: u32,
        cookie: u32,
    ) -> (r: Result<(), PsciError>)
        ensures
            exists|reply: Result<[u32; 8], i32>|
                #[trigger] C::answers(
                    PSCI_SYSTEM_RESET2_32,
                    args_of32(lead2(reset_type, cookie)),
                    reply,
                ) && r == outcome32(reply, |word: u32| ()),
    {
        let args: [u32; 7] = [reset_type, cookie, 0, 0, 0, 0, 0];
        assert(args@ =~= args_of32(lead2(reset_type, cookie)));
        let reply = C::call(PSCI_SYSTEM_RESET2_32, args);
        Self::done32(reply)
    }

    /// Resets the system in the given way.
    ///
    /// Places the request `PSCI_SYSTEM_RESET2_64` and decodes the reply that comes back.
    pub fn system_reset2_64<C: SmcccCall64>(
        reset_type: u32,
        cookie: u64,
    ) -> (r: Result<(), PsciError>)
        ensures
            exists|reply: Result<[u64; 18], i64>|
                #[trigger] C::answers(
                    PSCI_SYSTEM_RESET2_64,
                    args_of64(lead2(reset_type as u64, cookie)),
                    reply,
                ) && r == outcome64(reply, |word: u64| ()),
    {
        let args: [u64; 17] = [
            reset_type as u64,
            cookie,
            0,
            0,
            0,
            0,
            0,
            0,
            0,
            0,
            0,
            0,
            0,
            0,
            0,
            0,
            0,
        ];
        assert(args@ =~= args_of64(lead2(reset_type as u64, cookie)));
        let reply = C::call(PSCI_SYSTEM_RESET2_64, args);
        Self::done64(reply)
    }

    /// Switches memory protection on or off and returns the earlier setting.
    ///
    /// Places the request `PSCI_MEM_PROTECT` and decodes the reply that comes back.
    pub fn mem_protect<C: SmcccCall32>(enable: bool) -> (r: Result<u32, PsciError>)
        ensures
            exists|reply: Result<[u32; 8], i32>|
                #[trigger] C::answers(PSCI_MEM_PROTECT, args_of32(lead1(flag_word(enable))), reply)
                    && r == outcome32(reply, |word: u32| word),
    {
        let args: [u32; 7] = [if enable { 1u32 } else { 0u32 }, 0, 0, 0, 0, 0, 0];
        assert(args@ =~= args_of32(lead1(flag_word(enable))));
        let reply = C::call(PSCI_MEM_PROTECT, args);
        Self::word32(reply)
    }

    /// Asks whether a range of memory is protected.
    ///
    /// Places the request `PSCI_MEM_PROTECT_CHECK_RANGE_32` and decodes the reply that comes back.
    pub fn mem_protect_check_range_32<C: SmcccCall32>(
        base: u32,
        length: u32,
    ) -> (r: Result<(), PsciError>)
        ensures
            exists|reply: Result<[u32; 8], i32>|
                #[trigger] C::answers(
                    PSCI_MEM_PROTECT_CHECK_RANGE_32,
                    args_of32(lead2(base, length)),
                    reply,
                ) && r == outcome32(reply, |word: u32| ()),
    {
        let args: [u32; 7] = [base, length, 0, 0, 0, 0, 0];
        assert(args@ =~= args_of32(lead2(base, length)));
        let reply = C::call(PSCI_MEM_PROTECT_CHECK_RANGE_32, args);
        Self::done32(reply)
    }

    /// Asks whether a range of memory is protected.
    ///
    /// Places the request `PSCI_MEM_PROTECT_CHECK_RANGE_64` and decodes the reply that comes back.
    pub fn mem_protect_check_range_64<C: SmcccCall64>(
        base: u64,
        length: u64,
    ) -> (r: Result<(), PsciError>)
        ensures
            exists|reply: Result<[u64; 18], i64>|
                #[trigger] C::answers(
                    PSCI_MEM_PROTECT_CHECK_RANGE_64,
                    args_of64(lead2(base, length)),
                    reply,
                ) && r == outcome64(reply, |word: u64| ()),
    {
        let args: [u64; 17] = [base, length, 0, 0, 0, 0, 0, 0, 0, 0, 0, 0, 0, 0, 0, 0, 0];
        assert(args@ =~= args_of64(lead2(base, length)));
        let reply = C::call(PSCI_MEM_PROTECT_CHECK_RANGE_64, args);
        Self::done64(reply)
    }

    /// Asks whether a function is implemented, and for its feature flags.
    ///
    /// Places the request `PSCI_FEATURES` and decodes the reply that comes back.
    pub fn psci_features<C: SmcccCall32>(psci_func_id: u32) -> (r: Result<u32, PsciError>)
        ensures
            exists|reply: Result<[u32; 8], i32>|
                #[trigger] C::answers(PSCI_FEATURES, args_of32(lead1(psci_func_id)), reply)
                    && r == outcome32(reply, |word: u32| word),
    {
        let args: [u32; 7] = [psci_func_id, 0, 0, 0, 0, 0, 0];
        assert(args@ =~= args_of32(lead1(psci_func_id)));
        let reply = C::call(PSCI_FEATURES, args);
        Self::word32(reply)
    }

    /// Puts the calling core into a low-power state that only a reset leaves.
    ///
    /// Places the request `PSCI_CPU_FREEZE` and decodes the reply that comes back.
    pub fn cpu_freeze<C: SmcccCall32>() -> (r: Result<(), PsciError>)
        ensures
            exists|reply: Result<[u32; 8], i32>|
                #[trigger] C::answers(PSCI_CPU_FREEZE, args_of32(Seq::<u32>::empty()), reply)
                    && r == outcome32(reply, |word: u32| ()),
    {
        let args: [u32; 7] = [0, 0, 0, 0, 0, 0, 0];
        assert(args@ =~= args_of32(Seq::<u32>::empty()));
        let reply = C::call(PSCI_CPU_FREEZE, args);
        Self::done32(reply)
    }

    /// Suspends the calling core to the default power state.
    ///
    /// Places the request `PSCI_CPU_DEFAULT_SUSPEND_32` and decodes the reply that comes back.
    pub fn cpu_default_suspend_32<C: SmcccCall32>(
        entry_point_addr: u32,
        context_id: u32,
    ) -> (r: Result<(), PsciError>)
        ensures
            exists|reply: Result<[u32; 8], i32>|
                #[trigger] C::answers(
                    PSCI_CPU_DEFAULT_SUSPEND_32,
                    args_of32(lead2(entry_point_addr, context_id)),
                    reply,
                ) && r == outcome32(reply, |word: u32| ()),
    {
        let args: [u32; 7] = [entry_point_addr, context_id, 0, 0, 0, 0, 0];
        assert(args@ =~= args_of32(lead2(entry_point_addr, context_id)));
        let reply = C::call(PSCI_CPU_DEFAULT_SUSPEND_32, args);
        Self::done32(reply)
    }

    /// Suspends the calling core to the default power state.
    ///
    /// Places the request `PSCI_CPU_DEFAULT_SUSPEND_64` and decodes the reply that comes back.
    pub fn cpu_default_suspend_64<C: SmcccCall64>(
        entry_point_addr: u64,
        context_id: u64,
    ) -> (r: Result<(), PsciError>)
        ensures
            exists|reply: Result<[u64; 18], i64>|
                #[trigger] C::answers(
                    PSCI_CPU_DEFAULT_SUSPEND_64,
                    args_of64(lead2(entry_point_addr, context_id)),
                    reply,
                ) && r == outcome64(reply, |word: u64| ()),
    {
        let args: [u64; 17] = [
            entry_point_addr,
            context_id,
            0,
            0,
            0,
            0,
            0,
            0,
            0,
            0,
            0,
            0,
            0,
            0,
            0,
            0,
            0,
        ];
        assert(args@ =~= args_of64(lead2(entry_point_addr, context_id)));
        let reply = C::call(PSCI_CPU_DEFAULT_SUSPEND_64, args);
        Self::done64(reply)
    }

    /// Asks for the hardware state of a node.
    ///
    /// Places the request `PSCI_NODE_HW_STATE_32` and decodes the reply that comes back.
    pub fn node_hw_state_32<C: SmcccCall32>(
        target_cpu: u32,
        power_level: u32,
    ) -> (r: Result<NodeHwState, PsciError>)
        ensures
            exists|reply: Result<[u32; 8], i32>|
                #[trigger] C::answers(
                    PSCI_NODE_HW_STATE_32,
                    args_of32(lead2(target_cpu, power_level)),
                    reply,
                ) && r == outcome32(reply, |word: u32| NodeHwState::of_word(word as u64)),
    {
        let args: [u32; 7] = [target_cpu, power_level, 0, 0, 0, 0, 0];
        assert(args@ =~= args_of32(lead2(target_cpu, power_level)));
        let reply = C::call(PSCI_NODE_HW_STATE_32, args);
        Self::node_state_of32(reply)
    }

    /// Asks for the hardware state of a node.
    ///
    /// Places the request `PSCI_NODE_HW_STATE_64` and decodes the reply that comes back.
    pub fn node_hw_state_64<C: SmcccCall64>(
        target_cpu: u64,
        power_level: u32,
    ) -> (r: Result<NodeHwState, PsciError>)
        ensures
            exists|reply: Result<[u64; 18], i64>|
                #[trigger] C::answers(
                    PSCI_NODE_HW_STATE_64,
                    args_of64(lead2(target_cpu, power_level as u64)),
                    reply,
                ) && r == outcome64(reply, |word: u64| NodeHwState::of_word(word)),
    {
        let args: [u64; 17] = [
            target_cpu,
            power_level as u64,
            0,
            0,
            0,
            0,
            0,
            0,
            0,
            0,
            0,
            0,
            0,
            0,
            0,
            0,
            0,
        ];
        assert(args@ =~= args_of64(lead2(target_cpu, power_level as u64)));
        let reply = C::call(PSCI_NODE_HW_STATE_64, args);
        Self::node_state_of64(reply)
    }

    /// Suspends the whole system to memory.
    ///
    /// Places the request `PSCI_SYSTEM_SUSPEND_32` and decodes the reply that comes back.
    pub fn system_suspend_32<C: SmcccCall32>(
        entry_point_addr: u32,
        context_id: u32,
    ) -> (r: Result<(), PsciError>)
        ensures
            exists|reply: Result<[u32; 8], i32>|
                #[trigger] C::answers(
                    PSCI_SYSTEM_SUSPEND_32,
                    args_of32(lead2(entry_point_addr, context_id)),
                    reply,
                ) && r == outcome32(reply, |word: u32| ()),
    {
        let args: [u32; 7] = [entry_point_addr, context_id, 0, 0, 0, 0, 0];
        assert(args@ =~= args_of32(lead2(entry_point_addr, context_id)));
        let reply = C::call(PSCI_SYSTEM_SUSPEND_32, args);
        Self::done32(reply)
    }

    /// Suspends the whole system to memory.
    ///
    /// Places the request `PSCI_SYSTEM_SUSPEND_64` and decodes the reply that comes back.
    pub fn system_suspend_64<C: SmcccCall64>(
        entry_point_addr: u64,
        context_id: u64,
    ) -> (r: Result<(), PsciError>)
        ensures
            exists|reply: Result<[u64; 18], i64>|
                #[trigger] C::answers(
                    PSCI_SYSTEM_SUSPEND_64,
                    args_of64(lead2(entry_point_addr, context_id)),
                    reply,
                ) && r == outcome64(reply, |word: u64| ()),
    {
        let args: [u64; 17] = [
            entry_point_addr,
            context_id,
            0,
            0,
            0,
            0,
            0,
            0,
            0,
            0,
            0,
            0,
            0,
            0,
            0,
            0,
            0,
        ];
        assert(args@ =~= args_of64(lead2(entry_point_addr, context_id)));
        let reply = C::call(PSCI_SYSTEM_SUSPEND_64, args);
        Self::done64(reply)
    }

    /// Selects who coordinates suspend requests.
    ///
    /// Places the request `PSCI_SET_SUSPEND_MODE` and decodes the reply that comes back.
    pub fn psci_set_suspend_mode<C: SmcccCall32>(mode: SuspendMode) -> (r: Result<(), PsciError>)
        ensures
            exists|reply: Result<[u32; 8], i32>|
                #[trigger] C::answers(PSCI_SET_SUSPEND_MODE, args_of32(lead1(mode.code())), reply)
                    && r == outcome32(reply, |word: u32| ()),
    {
        let args: [u32; 7] = [u32::from(mode), 0, 0, 0, 0, 0, 0];
        assert(args@ =~= args_of32(lead1(mode.code())));
        let reply = C::call(PSCI_SET_SUSPEND_MODE, args);
        Self::done32(reply)
    }

    /// Asks how long a node has spent in a power state.
    ///
    /// Places the request `PSCI_STAT_RESIDENCY_32` and decodes the reply that comes back.
    pub fn psci_stat_residency_32<C: SmcccCall32>(
        target_cpu: u32,
        power_state: u32,
    ) -> (r: Result<Duration, PsciError>)
        ensures
            exists|reply: Result<[u32; 8], i32>|
                #[trigger] C::answers(
                    PSCI_STAT_RESIDENCY_32,
                    args_of32(lead2(target_cpu, power_state)),
                    reply,
                ) && r == outcome32(reply, |word: u32| span_of_micros(word as u64)),
    {
        let args: [u32; 7] = [target_cpu, power_state, 0, 0, 0, 0, 0];
        assert(args@ =~= args_of32(lead2(target_cpu, power_state)));
        let reply = C::call(PSCI_STAT_RESIDENCY_32, args);
        Self::residency_of32(reply)
    }

    /// Asks how long a node has spent in a power state.
    ///
    /// Places the request `PSCI_STAT_RESIDENCY_64` and decodes the reply that comes back.
    pub fn psci_stat_residency_64<C: SmcccCall64>(
        target_cpu: u64,
        power_state: u32,
    ) -> (r: Result<Duration, PsciError>)
        ensures
            exists|reply: Result<[u64; 18], i64>|
                #[trigger] C::answers(
                    PSCI_STAT_RESIDENCY_64,
                    args_of64(lead2(target_cpu, power_state as u64)),
                    reply,
                ) && r == outcome64(reply, |word: u64| span_of_micros(word)),
    {
        let args: [u64; 17] = [
            target_cpu,
            power_state as u64,
            0,
            0,
            0,
            0,
            0,
            0,
            0,
            0,
            0,
            0,
            0,
            0,
            0,
            0,
            0,
        ];
        assert(args@ =~= args_of64(lead2(target_cpu, power_state as u64)));
        let reply = C::call(PSCI_STAT_RESIDENCY_64, args);
        Self::residency_of64(reply)
    }

    /// Asks how often a node has entered a power state.
    ///
    /// Places the request `PSCI_STAT_COUNT_32` and decodes the reply that comes back.
    pub fn psci_stat_count_32<C: SmcccCall32>(
        target_cpu: u32,
        power_state: u32,
    ) -> (r: Result<u32, PsciError>)
        ensures
            exists|reply: Result<[u32; 8], i32>|
                #[trigger] C::answers(
                    PSCI_STAT_COUNT_32,
                    args_of32(lead2(target_cpu, power_state)),
                    reply,
                ) && r == outcome32(reply, |word: u32| word),
    {
        let args: [u32; 7] = [target_cpu, power_state, 0, 0, 0, 0, 0];
        assert(args@ =~= args_of32(lead2(target_cpu, power_state)));
        let reply = C::call(PSCI_STAT_COUNT_32, args);
        Self::word32(reply)
    }

    /// Asks how often a node has entered a power state.
    ///
    /// Places the request `PSCI_STAT_COUNT_64` and decodes the reply that comes back.
    pub fn psci_stat_count_64<C: SmcccCall64>(
        target_cpu: u64,
        power_state: u32,
    ) -> (r: Result<u64, PsciError>)
        ensures
            exists|reply: Result<[u64; 18], i64>|
                #[trigger] C::answers(
                    PSCI_STAT_COUNT_64,
                    args_of64(lead2(target_cpu, power_state as u64)),
                    reply,
                ) && r == outcome64(reply, |word: u64| word),
    {
        let args: [u64; 17] = [
            target_cpu,
            power_state as u64,
            0,
            0,
            0,
            0,
            0,
            0,
            0,
            0,
            0,
            0,
            0,
            0,
            0,
            0,
            0,
        ];
        assert(args@ =~= args_of64(lead2(target_cpu, power_state as u64)));
        let reply = C::call(PSCI_STAT_COUNT_64, args);
        Self::word64(reply)
    }
}

pub const PSCI_VERSION: u32 = 0x84000000;
pub const PSCI_CPU_SUSPEND_32: u32 = 0x84000001;
pub const PSCI_CPU_SUSPEND_64: u32 = 0xC4000001;
pub const PSCI_CPU_OFF: u32 = 0x84000002;
pub const PSCI_CPU_ON_32: u32 = 0x84000003;
pub const PSCI_CPU_ON_64: u32 = 0xC4000003;
pub const PSCI_AFFINITY_INFO_32: u32 = 0x84000004;
pub const PSCI_AFFINITY_INFO_64: u32 = 0xC4000004;
pub const PSCI_MIGRATE_32: u32 = 0x84000005;
pub const PSCI_MIGRATE_64: u32 = 0xC4000005;
pub const PSCI_MIGRATE_INFO_TYPE: u32 = 0x84000006;
pub const PSCI_MIGRATE_INFO_UP_CPU_32: u32 = 0x84000007;
pub const PSCI_MIGRATE_INFO_UP_CPU_64: u32 = 0xC4000007;
pub const PSCI_SYSTEM_OFF: u32 = 0x84000008;
pub const PSCI_SYSTEM_RESET: u32 = 0x84000009;
pub const PSCI_SYSTEM_RESET2_32: u32 = 0x84000012;
pub const PSCI_SYSTEM_RESET2_64: u32 = 0xC4000012;
pub const PSCI_MEM_PROTECT: u32 = 0x84000013;
pub const PSCI_MEM_PROTECT_CHECK_RANGE_32: u32 = 0x84000014;
pub const PSCI_MEM_PROTECT_CHECK_RANGE_64: u32 = 0xC4000014;
pub const PSCI_FEATURES: u32 = 0x8400000A;
pub const PSCI_CPU_FREEZE: u32 = 0x8400000B;
pub const PSCI_CPU_DEFAULT_SUSPEND_32: u32 = 0x8400000C;
pub const PSCI_CPU_DEFAULT_SUSPEND_64: u32 = 0xC400000C;
pub const PSCI_NODE_HW_STATE_32: u32 = 0x8400000D;
pub const PSCI_NODE_HW_STATE_64: u32 = 0xC400000D;
pub const PSCI_SYSTEM_SUSPEND_32: u32 = 0x8400000E;
pub const PSCI_SYSTEM_SUSPEND_64: u32 = 0xC400000E;
pub const PSCI_SET_SUSPEND_MODE: u32 = 0x8400000F;
pub const PSCI_STAT_RESIDENCY_32: u32 = 0x84000010;
pub const PSCI_STAT_RESIDENCY_64: u32 = 0xC4000010;
pub const PSCI_STAT_COUNT_32: u32 = 0x84000011;
pub const PSCI_STAT_COUNT_64: u32 = 0xC4000011;

} // verus!
