use arm64::psci::{
    AffinityInfo, MigrateInfoType, NodeHwState, Psci, PsciError, PsciVersion, SuspendMode,
};
use arm64::smccc::{SmcccCall32, SmcccCall64};
use std::time::Duration;

struct AlreadyOn;

impl SmcccCall32 for AlreadyOn {
    fn call(_function: u32, _args: [u32; 7]) -> Result<[u32; 8], i32> {
        Err(-4)
    }
}

impl SmcccCall64 for AlreadyOn {
    fn call(_function: u32, _args: [u64; 17]) -> Result<[u64; 18], i64> {
        Err(-4)
    }
}

struct Unknown;

impl SmcccCall32 for Unknown {
    fn call(_function: u32, _args: [u32; 7]) -> Result<[u32; 8], i32> {
        Err(-42)
    }
}

impl SmcccCall64 for Unknown {
    fn call(_function: u32, _args: [u64; 17]) -> Result<[u64; 18], i64> {
        Err(-42)
    }
}

fn reply32(first: u32) -> Result<[u32; 8], i32> {
    Ok([first, 0, 0, 0, 0, 0, 0, 0])
}

fn reply64(first: u64) -> Result<[u64; 18], i64> {
    let mut words = [0u64; 18];
    words[0] = first;
    Ok(words)
}

struct ExpectVersion;

impl SmcccCall32 for ExpectVersion {
    fn call(function: u32, args: [u32; 7]) -> Result<[u32; 8], i32> {
        assert_eq!(function, 0x84000000);
        assert_eq!(args, [0, 0, 0, 0, 0, 0, 0]);
        reply32(0x0001_0002)
    }
}

#[test]
fn version_places_its_request() {
    assert_eq!(Psci::version::<ExpectVersion>(), Ok(PsciVersion { major: 1, minor: 2 }));
}

#[test]
fn version_maps_return_codes() {
    assert_eq!(Psci::version::<AlreadyOn>().unwrap_err(), PsciError::AlreadyOn);
    assert_eq!(Psci::version::<Unknown>().unwrap_err(), PsciError::Other(-42));
}

struct ExpectCpuSuspend32;

impl SmcccCall32 for ExpectCpuSuspend32 {
    fn call(function: u32, args: [u32; 7]) -> Result<[u32; 8], i32> {
        assert_eq!(function, 0x84000001);
        assert_eq!(args, [0x11, 0x22, 0x33, 0, 0, 0, 0]);
        reply32(2)
    }
}

#[test]
fn cpu_suspend_32_places_its_request() {
    assert_eq!(Psci::cpu_suspend_32::<ExpectCpuSuspend32>(0x11, 0x22, 0x33), Ok(()));
}

#[test]
fn cpu_suspend_32_maps_return_codes() {
    assert_eq!(Psci::cpu_suspend_32::<AlreadyOn>(0x11, 0x22, 0x33).unwrap_err(), PsciError::AlreadyOn);
    assert_eq!(Psci::cpu_suspend_32::<Unknown>(0x11, 0x22, 0x33).unwrap_err(), PsciError::Other(-42));
}

struct ExpectCpuSuspend64;

impl SmcccCall64 for ExpectCpuSuspend64 {
    fn call(function: u32, args: [u64; 17]) -> Result<[u64; 18], i64> {
        assert_eq!(function, 0xC4000001);
        assert_eq!(args, [0x11, 0x2_0000_0022, 0x3_0000_0033, 0, 0, 0, 0, 0, 0, 0, 0, 0, 0, 0, 0, 0, 0]);
        reply64(2)
    }
}

#[test]
fn cpu_suspend_64_places_its_request() {
    assert_eq!(Psci::cpu_suspend_64::<ExpectCpuSuspend64>(0x11, 0x2_0000_0022, 0x3_0000_0033), Ok(()));
}

#[test]
fn cpu_suspend_64_maps_return_codes() {
    assert_eq!(Psci::cpu_suspend_64::<AlreadyOn>(0x11, 0x2_0000_0022, 0x3_0000_0033).unwrap_err(), PsciError::AlreadyOn);
    assert_eq!(Psci::cpu_suspend_64::<Unknown>(0x11, 0x2_0000_0022, 0x3_0000_0033).unwrap_err(), PsciError::Other(-42));
}

struct ExpectCpuOff;

impl SmcccCall32 for ExpectCpuOff {
    fn call(function: u32, args: [u32; 7]) -> Result<[u32; 8], i32> {
        assert_eq!(function, 0x84000002);
        assert_eq!(args, [0, 0, 0, 0, 0, 0, 0]);
        reply32(2)
    }
}

#[test]
fn cpu_off_places_its_request() {
    assert_eq!(Psci::cpu_off::<ExpectCpuOff>(), Ok(()));
}

#[test]
fn cpu_off_maps_return_codes() {
    assert_eq!(Psci::cpu_off::<AlreadyOn>().unwrap_err(), PsciError::AlreadyOn);
    assert_eq!(Psci::cpu_off::<Unknown>().unwrap_err(), PsciError::Other(-42));
}

struct ExpectCpuOn32;

impl SmcccCall32 for ExpectCpuOn32 {
    fn call(function: u32, args: [u32; 7]) -> Result<[u32; 8], i32> {
        assert_eq!(function, 0x84000003);
        assert_eq!(args, [0x11, 0x22, 0x33, 0, 0, 0, 0]);
        reply32(2)
    }
}

#[test]
fn cpu_on_32_places_its_request() {
    assert_eq!(Psci::cpu_on_32::<ExpectCpuOn32>(0x11, 0x22, 0x33), Ok(()));
}

#[test]
fn cpu_on_32_maps_return_codes() {
    assert_eq!(Psci::cpu_on_32::<AlreadyOn>(0x11, 0x22, 0x33).unwrap_err(), PsciError::AlreadyOn);
    assert_eq!(Psci::cpu_on_32::<Unknown>(0x11, 0x22, 0x33).unwrap_err(), PsciError::Other(-42));
}

struct ExpectCpuOn64;

impl SmcccCall64 for ExpectCpuOn64 {
    fn call(function: u32, args: [u64; 17]) -> Result<[u64; 18], i64> {
        assert_eq!(function, 0xC4000003);
        assert_eq!(args, [0x1_0000_0011, 0x2_0000_0022, 0x3_0000_0033, 0, 0, 0, 0, 0, 0, 0, 0, 0, 0, 0, 0, 0, 0]);
        reply64(2)
    }
}

#[test]
fn cpu_on_64_places_its_request() {
    assert_eq!(Psci::cpu_on_64::<ExpectCpuOn64>(0x1_0000_0011, 0x2_0000_0022, 0x3_0000_0033), Ok(()));
}

#[test]
fn cpu_on_64_maps_return_codes() {
    assert_eq!(Psci::cpu_on_64::<AlreadyOn>(0x1_0000_0011, 0x2_0000_0022, 0x3_0000_0033).unwrap_err(), PsciError::AlreadyOn);
    assert_eq!(Psci::cpu_on_64::<Unknown>(0x1_0000_0011, 0x2_0000_0022, 0x3_0000_0033).unwrap_err(), PsciError::Other(-42));
}

struct ExpectAffinityInfo32;

impl SmcccCall32 for ExpectAffinityInfo32 {
    fn call(function: u32, args: [u32; 7]) -> Result<[u32; 8], i32> {
        assert_eq!(function, 0x84000004);
        assert_eq!(args, [0x11, 0x22, 0, 0, 0, 0, 0]);
        reply32(1)
    }
}

#[test]
fn affinity_info_32_places_its_request() {
    assert_eq!(Psci::affinity_info_32::<ExpectAffinityInfo32>(0x11, 0x22), Ok(AffinityInfo::Off));
}

#[test]
fn affinity_info_32_maps_return_codes() {
    assert_eq!(Psci::affinity_info_32::<AlreadyOn>(0x11, 0x22).unwrap_err(), PsciError::AlreadyOn);
    assert_eq!(Psci::affinity_info_32::<Unknown>(0x11, 0x22).unwrap_err(), PsciError::Other(-42));
}

struct ExpectAffinityInfo64;

impl SmcccCall64 for ExpectAffinityInfo64 {
    fn call(function: u32, args: [u64; 17]) -> Result<[u64; 18], i64> {
        assert_eq!(function, 0xC4000004);
        assert_eq!(args, [0x1_0000_0011, 0x22, 0, 0, 0, 0, 0, 0, 0, 0, 0, 0, 0, 0, 0, 0, 0]);
        reply64(2)
    }
}

#[test]
fn affinity_info_64_places_its_request() {
    assert_eq!(Psci::affinity_info_64::<ExpectAffinityInfo64>(0x1_0000_0011, 0x22), Ok(AffinityInfo::OnPending));
}

#[test]
fn affinity_info_64_maps_return_codes() {
    assert_eq!(Psci::affinity_info_64::<AlreadyOn>(0x1_0000_0011, 0x22).unwrap_err(), PsciError::AlreadyOn);
    assert_eq!(Psci::affinity_info_64::<Unknown>(0x1_0000_0011, 0x22).unwrap_err(), PsciError::Other(-42));
}

struct ExpectMigrate32;

impl SmcccCall32 for ExpectMigrate32 {
    fn call(function: u32, args: [u32; 7]) -> Result<[u32; 8], i32> {
        assert_eq!(function, 0x84000005);
        assert_eq!(args, [0x11, 0, 0, 0, 0, 0, 0]);
        reply32(1)
    }
}

#[test]
fn migrate_32_places_its_request() {
    assert_eq!(Psci::migrate_32::<ExpectMigrate32>(0x11), Ok(AffinityInfo::Off));
}

#[test]
fn migrate_32_maps_return_codes() {
    assert_eq!(Psci::migrate_32::<AlreadyOn>(0x11).unwrap_err(), PsciError::AlreadyOn);
    assert_eq!(Psci::migrate_32::<Unknown>(0x11).unwrap_err(), PsciError::Other(-42));
}

struct ExpectMigrate64;

impl SmcccCall64 for ExpectMigrate64 {
    fn call(function: u32, args: [u64; 17]) -> Result<[u64; 18], i64> {
        assert_eq!(function, 0xC4000005);
        assert_eq!(args, [0x1_0000_0011, 0, 0, 0, 0, 0, 0, 0, 0, 0, 0, 0, 0, 0, 0, 0, 0]);
        reply64(2)
    }
}

#[test]
fn migrate_64_places_its_request() {
    assert_eq!(Psci::migrate_64::<ExpectMigrate64>(0x1_0000_0011), Ok(AffinityInfo::OnPending));
}

#[test]
fn migrate_64_maps_return_codes() {
    assert_eq!(Psci::migrate_64::<AlreadyOn>(0x1_0000_0011).unwrap_err(), PsciError::AlreadyOn);
    assert_eq!(Psci::migrate_64::<Unknown>(0x1_0000_0011).unwrap_err(), PsciError::Other(-42));
}

struct ExpectMigrateInfoType32;

impl SmcccCall32 for ExpectMigrateInfoType32 {
    fn call(function: u32, args: [u32; 7]) -> Result<[u32; 8], i32> {
        assert_eq!(function, 0x84000006);
        assert_eq!(args, [0, 0, 0, 0, 0, 0, 0]);
        reply32(2)
    }
}

#[test]
fn migrate_info_type_32_places_its_request() {
    assert_eq!(Psci::migrate_info_type_32::<ExpectMigrateInfoType32>(), Ok(MigrateInfoType::MigrateNotRequired));
}

#[test]
fn migrate_info_type_32_maps_return_codes() {
    assert_eq!(Psci::migrate_info_type_32::<AlreadyOn>().unwrap_err(), PsciError::AlreadyOn);
    assert_eq!(Psci::migrate_info_type_32::<Unknown>().unwrap_err(), PsciError::Other(-42));
}

struct ExpectMigrateInfoUpCpu32;

impl SmcccCall32 for ExpectMigrateInfoUpCpu32 {
    fn call(function: u32, args: [u32; 7]) -> Result<[u32; 8], i32> {
        assert_eq!(function, 0x84000007);
        assert_eq!(args, [0, 0, 0, 0, 0, 0, 0]);
        reply32(0x55)
    }
}

#[test]
fn migrate_info_up_cpu_32_places_its_request() {
    assert_eq!(Psci::migrate_info_up_cpu_32::<ExpectMigrateInfoUpCpu32>(), Ok(0x55));
}

#[test]
fn migrate_info_up_cpu_32_maps_return_codes() {
    assert_eq!(Psci::migrate_info_up_cpu_32::<AlreadyOn>().unwrap_err(), PsciError::AlreadyOn);
    assert_eq!(Psci::migrate_info_up_cpu_32::<Unknown>().unwrap_err(), PsciError::Other(-42));
}

struct ExpectMigrateInfoUpCpu64;

impl SmcccCall64 for ExpectMigrateInfoUpCpu64 {
    fn call(function: u32, args: [u64; 17]) -> Result<[u64; 18], i64> {
        assert_eq!(function, 0xC4000007);
        assert_eq!(args, [0, 0, 0, 0, 0, 0, 0, 0, 0, 0, 0, 0, 0, 0, 0, 0, 0]);
        reply64(0x5_0000_0055)
    }
}

#[test]
fn migrate_info_up_cpu_64_places_its_request() {
    assert_eq!(Psci::migrate_info_up_cpu_64::<ExpectMigrateInfoUpCpu64>(), Ok(0x5_0000_0055));
}

#[test]
fn migrate_info_up_cpu_64_maps_return_codes() {
    assert_eq!(Psci::migrate_info_up_cpu_64::<AlreadyOn>().unwrap_err(), PsciError::AlreadyOn);
    assert_eq!(Psci::migrate_info_up_cpu_64::<Unknown>().unwrap_err(), PsciError::Other(-42));
}

struct ExpectSystemOff;

impl SmcccCall32 for ExpectSystemOff {
    fn call(function: u32, args: [u32; 7]) -> Result<[u32; 8], i32> {
        assert_eq!(function, 0x84000008);
        assert_eq!(args, [0, 0, 0, 0, 0, 0, 0]);
        reply32(2)
    }
}

#[test]
fn system_off_places_its_request() {
    assert_eq!(Psci::system_off::<ExpectSystemOff>(), Ok(()));
}

#[test]
fn system_off_maps_return_codes() {
    assert_eq!(Psci::system_off::<AlreadyOn>().unwrap_err(), PsciError::AlreadyOn);
    assert_eq!(Psci::system_off::<Unknown>().unwrap_err(), PsciError::Other(-42));
}

struct ExpectSystemReset;

impl SmcccCall32 for ExpectSystemReset {
    fn call(function: u32, args: [u32; 7]) -> Result<[u32; 8], i32> {
        assert_eq!(function, 0x84000009);
        assert_eq!(args, [0, 0, 0, 0, 0, 0, 0]);
        reply32(2)
    }
}

#[test]
fn system_reset_places_its_request() {
    assert_eq!(Psci::system_reset::<ExpectSystemReset>(), Ok(()));
}

#[test]
fn system_reset_maps_return_codes() {
    assert_eq!(Psci::system_reset::<AlreadyOn>().unwrap_err(), PsciError::AlreadyOn);
    assert_eq!(Psci::system_reset::<Unknown>().unwrap_err(), PsciError::Other(-42));
}

struct ExpectSystemReset232;

impl SmcccCall32 for ExpectSystemReset232 {
    fn call(function: u32, args: [u32; 7]) -> Result<[u32; 8], i32> {
        assert_eq!(function, 0x84000012);
        assert_eq!(args, [0x11, 0x22, 0, 0, 0, 0, 0]);
        reply32(2)
    }
}

#[test]
fn system_reset2_32_places_its_request() {
    assert_eq!(Psci::system_reset2_32::<ExpectSystemReset232>(0x11, 0x22), Ok(()));
}

#[test]
fn system_reset2_32_maps_return_codes() {
    assert_eq!(Psci::system_reset2_32::<AlreadyOn>(0x11, 0x22).unwrap_err(), PsciError::AlreadyOn);
    assert_eq!(Psci::system_reset2_32::<Unknown>(0x11, 0x22).unwrap_err(), PsciError::Other(-42));
}

struct ExpectSystemReset264;

impl SmcccCall64 for ExpectSystemReset264 {
    fn call(function: u32, args: [u64; 17]) -> Result<[u64; 18], i64> {
        assert_eq!(function, 0xC4000012);
        assert_eq!(args, [0x11, 0x2_0000_0022, 0, 0, 0, 0, 0, 0, 0, 0, 0, 0, 0, 0, 0, 0, 0]);
        reply64(2)
    }
}

#[test]
fn system_reset2_64_places_its_request() {
    assert_eq!(Psci::system_reset2_64::<ExpectSystemReset264>(0x11, 0x2_0000_0022), Ok(()));
}

#[test]
fn system_reset2_64_maps_return_codes() {
    assert_eq!(Psci::system_reset2_64::<AlreadyOn>(0x11, 0x2_0000_0022).unwrap_err(), PsciError::AlreadyOn);
    assert_eq!(Psci::system_reset2_64::<Unknown>(0x11, 0x2_0000_0022).unwrap_err(), PsciError::Other(-42));
}

struct ExpectMemProtect;

impl SmcccCall32 for ExpectMemProtect {
    fn call(function: u32, args: [u32; 7]) -> Result<[u32; 8], i32> {
        assert_eq!(function, 0x84000013);
        assert_eq!(args, [1, 0, 0, 0, 0, 0, 0]);
        reply32(0x55)
    }
}

#[test]
fn mem_protect_places_its_request() {
    assert_eq!(Psci::mem_protect::<ExpectMemProtect>(true), Ok(0x55));
}

#[test]
fn mem_protect_maps_return_codes() {
    assert_eq!(Psci::mem_protect::<AlreadyOn>(true).unwrap_err(), PsciError::AlreadyOn);
    assert_eq!(Psci::mem_protect::<Unknown>(true).unwrap_err(), PsciError::Other(-42));
}

struct ExpectMemProtectCheckRange32;

impl SmcccCall32 for ExpectMemProtectCheckRange32 {
    fn call(function: u32, args: [u32; 7]) -> Result<[u32; 8], i32> {
        assert_eq!(function, 0x84000014);
        assert_eq!(args, [0x11, 0x22, 0, 0, 0, 0, 0]);
        reply32(2)
    }
}

#[test]
fn mem_protect_check_range_32_places_its_request() {
    assert_eq!(Psci::mem_protect_check_range_32::<ExpectMemProtectCheckRange32>(0x11, 0x22), Ok(()));
}

#[test]
fn mem_protect_check_range_32_maps_return_codes() {
    assert_eq!(Psci::mem_protect_check_range_32::<AlreadyOn>(0x11, 0x22).unwrap_err(), PsciError::AlreadyOn);
    assert_eq!(Psci::mem_protect_check_range_32::<Unknown>(0x11, 0x22).unwrap_err(), PsciError::Other(-42));
}

struct ExpectMemProtectCheckRange64;

impl SmcccCall64 for ExpectMemProtectCheckRange64 {
    fn call(function: u32, args: [u64; 17]) -> Result<[u64; 18], i64> {
        assert_eq!(function, 0xC4000014);
        assert_eq!(args, [0x1_0000_0011, 0x2_0000_0022, 0, 0, 0, 0, 0, 0, 0, 0, 0, 0, 0, 0, 0, 0, 0]);
        reply64(2)
    }
}

#[test]
fn mem_protect_check_range_64_places_its_request() {
    assert_eq!(Psci::mem_protect_check_range_64::<ExpectMemProtectCheckRange64>(0x1_0000_0011, 0x2_0000_0022), Ok(()));
}

#[test]
fn mem_protect_check_range_64_maps_return_codes() {
    assert_eq!(Psci::mem_protect_check_range_64::<AlreadyOn>(0x1_0000_0011, 0x2_0000_0022).unwrap_err(), PsciError::AlreadyOn);
    assert_eq!(Psci::mem_protect_check_range_64::<Unknown>(0x1_0000_0011, 0x2_0000_0022).unwrap_err(), PsciError::Other(-42));
}

struct ExpectPsciFeatures;

impl SmcccCall32 for ExpectPsciFeatures {
    fn call(function: u32, args: [u32; 7]) -> Result<[u32; 8], i32> {
        assert_eq!(function, 0x8400000A);
        assert_eq!(args, [0x11, 0, 0, 0, 0, 0, 0]);
        reply32(0x55)
    }
}

#[test]
fn psci_features_places_its_request() {
    assert_eq!(Psci::psci_features::<ExpectPsciFeatures>(0x11), Ok(0x55));
}

#[test]
fn psci_features_maps_return_codes() {
    assert_eq!(Psci::psci_features::<AlreadyOn>(0x11).unwrap_err(), PsciError::AlreadyOn);
    assert_eq!(Psci::psci_features::<Unknown>(0x11).unwrap_err(), PsciError::Other(-42));
}

struct ExpectCpuFreeze;

impl SmcccCall32 for ExpectCpuFreeze {
    fn call(function: u32, args: [u32; 7]) -> Result<[u32; 8], i32> {
        assert_eq!(function, 0x8400000B);
        assert_eq!(args, [0, 0, 0, 0, 0, 0, 0]);
        reply32(2)
    }
}

#[test]
fn cpu_freeze_places_its_request() {
    assert_eq!(Psci::cpu_freeze::<ExpectCpuFreeze>(), Ok(()));
}

#[test]
fn cpu_freeze_maps_return_codes() {
    assert_eq!(Psci::cpu_freeze::<AlreadyOn>().unwrap_err(), PsciError::AlreadyOn);
    assert_eq!(Psci::cpu_freeze::<Unknown>().unwrap_err(), PsciError::Other(-42));
}

struct ExpectCpuDefaultSuspend32;

impl SmcccCall32 for ExpectCpuDefaultSuspend32 {
    fn call(function: u32, args: [u32; 7]) -> Result<[u32; 8], i32> {
        assert_eq!(function, 0x8400000C);
        assert_eq!(args, [0x11, 0x22, 0, 0, 0, 0, 0]);
        reply32(2)
    }
}

#[test]
fn cpu_default_suspend_32_places_its_request() {
    assert_eq!(Psci::cpu_default_suspend_32::<ExpectCpuDefaultSuspend32>(0x11, 0x22), Ok(()));
}

#[test]
fn cpu_default_suspend_32_maps_return_codes() {
    assert_eq!(Psci::cpu_default_suspend_32::<AlreadyOn>(0x11, 0x22).unwrap_err(), PsciError::AlreadyOn);
    assert_eq!(Psci::cpu_default_suspend_32::<Unknown>(0x11, 0x22).unwrap_err(), PsciError::Other(-42));
}

struct ExpectCpuDefaultSuspend64;

impl SmcccCall64 for ExpectCpuDefaultSuspend64 {
    fn call(function: u32, args: [u64; 17]) -> Result<[u64; 18], i64> {
        assert_eq!(function, 0xC400000C);
        assert_eq!(args, [0x1_0000_0011, 0x2_0000_0022, 0, 0, 0, 0, 0, 0, 0, 0, 0, 0, 0, 0, 0, 0, 0]);
        reply64(2)
    }
}

#[test]
fn cpu_default_suspend_64_places_its_request() {
    assert_eq!(Psci::cpu_default_suspend_64::<ExpectCpuDefaultSuspend64>(0x1_0000_0011, 0x2_0000_0022), Ok(()));
}

#[test]
fn cpu_default_suspend_64_maps_return_codes() {
    assert_eq!(Psci::cpu_default_suspend_64::<AlreadyOn>(0x1_0000_0011, 0x2_0000_0022).unwrap_err(), PsciError::AlreadyOn);
    assert_eq!(Psci::cpu_default_suspend_64::<Unknown>(0x1_0000_0011, 0x2_0000_0022).unwrap_err(), PsciError::Other(-42));
}

struct ExpectNodeHwState32;

impl SmcccCall32 for ExpectNodeHwState32 {
    fn call(function: u32, args: [u32; 7]) -> Result<[u32; 8], i32> {
        assert_eq!(function, 0x8400000D);
        assert_eq!(args, [0x11, 0x22, 0, 0, 0, 0, 0]);
        reply32(0)
    }
}

#[test]
fn node_hw_state_32_places_its_request() {
    assert_eq!(Psci::node_hw_state_32::<ExpectNodeHwState32>(0x11, 0x22), Ok(NodeHwState::HwOn));
}

#[test]
fn node_hw_state_32_maps_return_codes() {
    assert_eq!(Psci::node_hw_state_32::<AlreadyOn>(0x11, 0x22).unwrap_err(), PsciError::AlreadyOn);
    assert_eq!(Psci::node_hw_state_32::<Unknown>(0x11, 0x22).unwrap_err(), PsciError::Other(-42));
}

struct ExpectNodeHwState64;

impl SmcccCall64 for ExpectNodeHwState64 {
    fn call(function: u32, args: [u64; 17]) -> Result<[u64; 18], i64> {
        assert_eq!(function, 0xC400000D);
        assert_eq!(args, [0x1_0000_0011, 0x22, 0, 0, 0, 0, 0, 0, 0, 0, 0, 0, 0, 0, 0, 0, 0]);
        reply64(9)
    }
}

#[test]
fn node_hw_state_64_places_its_request() {
    assert_eq!(Psci::node_hw_state_64::<ExpectNodeHwState64>(0x1_0000_0011, 0x22), Ok(NodeHwState::Other(9)));
}

#[test]
fn node_hw_state_64_maps_return_codes() {
    assert_eq!(Psci::node_hw_state_64::<AlreadyOn>(0x1_0000_0011, 0x22).unwrap_err(), PsciError::AlreadyOn);
    assert_eq!(Psci::node_hw_state_64::<Unknown>(0x1_0000_0011, 0x22).unwrap_err(), PsciError::Other(-42));
}

struct ExpectSystemSuspend32;

impl SmcccCall32 for ExpectSystemSuspend32 {
    fn call(function: u32, args: [u32; 7]) -> Result<[u32; 8], i32> {
        assert_eq!(function, 0x8400000E);
        assert_eq!(args, [0x11, 0x22, 0, 0, 0, 0, 0]);
        reply32(2)
    }
}

#[test]
fn system_suspend_32_places_its_request() {
    assert_eq!(Psci::system_suspend_32::<ExpectSystemSuspend32>(0x11, 0x22), Ok(()));
}

#[test]
fn system_suspend_32_maps_return_codes() {
    assert_eq!(Psci::system_suspend_32::<AlreadyOn>(0x11, 0x22).unwrap_err(), PsciError::AlreadyOn);
    assert_eq!(Psci::system_suspend_32::<Unknown>(0x11, 0x22).unwrap_err(), PsciError::Other(-42));
}

struct ExpectSystemSuspend64;

impl SmcccCall64 for ExpectSystemSuspend64 {
    fn call(function: u32, args: [u64; 17]) -> Result<[u64; 18], i64> {
        assert_eq!(function, 0xC400000E);
        assert_eq!(args, [0x1_0000_0011, 0x2_0000_0022, 0, 0, 0, 0, 0, 0, 0, 0, 0, 0, 0, 0, 0, 0, 0]);
        reply64(2)
    }
}

#[test]
fn system_suspend_64_places_its_request() {
    assert_eq!(Psci::system_suspend_64::<ExpectSystemSuspend64>(0x1_0000_0011, 0x2_0000_0022), Ok(()));
}

#[test]
fn system_suspend_64_maps_return_codes() {
    assert_eq!(Psci::system_suspend_64::<AlreadyOn>(0x1_0000_0011, 0x2_0000_0022).unwrap_err(), PsciError::AlreadyOn);
    assert_eq!(Psci::system_suspend_64::<Unknown>(0x1_0000_0011, 0x2_0000_0022).unwrap_err(), PsciError::Other(-42));
}

struct ExpectPsciSetSuspendMode;

impl SmcccCall32 for ExpectPsciSetSuspendMode {
    fn call(function: u32, args: [u32; 7]) -> Result<[u32; 8], i32> {
        assert_eq!(function, 0x8400000F);
        assert_eq!(args, [1, 0, 0, 0, 0, 0, 0]);
        reply32(2)
    }
}

#[test]
fn psci_set_suspend_mode_places_its_request() {
    assert_eq!(Psci::psci_set_suspend_mode::<ExpectPsciSetSuspendMode>(SuspendMode::OS), Ok(()));
}

#[test]
fn psci_set_suspend_mode_maps_return_codes() {
    assert_eq!(Psci::psci_set_suspend_mode::<AlreadyOn>(SuspendMode::OS).unwrap_err(), PsciError::AlreadyOn);
    assert_eq!(Psci::psci_set_suspend_mode::<Unknown>(SuspendMode::OS).unwrap_err(), PsciError::Other(-42));
}

struct ExpectPsciStatResidency32;

impl SmcccCall32 for ExpectPsciStatResidency32 {
    fn call(function: u32, args: [u32; 7]) -> Result<[u32; 8], i32> {
        assert_eq!(function, 0x84000010);
        assert_eq!(args, [0x11, 0x22, 0, 0, 0, 0, 0]);
        reply32(1500)
    }
}

#[test]
fn psci_stat_residency_32_places_its_request() {
    assert_eq!(Psci::psci_stat_residency_32::<ExpectPsciStatResidency32>(0x11, 0x22), Ok(Duration::from_micros(1500)));
}

#[test]
fn psci_stat_residency_32_maps_return_codes() {
    assert_eq!(Psci::psci_stat_residency_32::<AlreadyOn>(0x11, 0x22).unwrap_err(), PsciError::AlreadyOn);
    assert_eq!(Psci::psci_stat_residency_32::<Unknown>(0x11, 0x22).unwrap_err(), PsciError::Other(-42));
}

struct ExpectPsciStatResidency64;

impl SmcccCall64 for ExpectPsciStatResidency64 {
    fn call(function: u32, args: [u64; 17]) -> Result<[u64; 18], i64> {
        assert_eq!(function, 0xC4000010);
        assert_eq!(args, [0x1_0000_0011, 0x22, 0, 0, 0, 0, 0, 0, 0, 0, 0, 0, 0, 0, 0, 0, 0]);
        reply64(0x1_0000_0000)
    }
}

#[test]
fn psci_stat_residency_64_places_its_request() {
    assert_eq!(Psci::psci_stat_residency_64::<ExpectPsciStatResidency64>(0x1_0000_0011, 0x22), Ok(Duration::from_micros(0x1_0000_0000)));
}

#[test]
fn psci_stat_residency_64_maps_return_codes() {
    assert_eq!(Psci::psci_stat_residency_64::<AlreadyOn>(0x1_0000_0011, 0x22).unwrap_err(), PsciError::AlreadyOn);
    assert_eq!(Psci::psci_stat_residency_64::<Unknown>(0x1_0000_0011, 0x22).unwrap_err(), PsciError::Other(-42));
}

struct ExpectPsciStatCount32;

impl SmcccCall32 for ExpectPsciStatCount32 {
    fn call(function: u32, args: [u32; 7]) -> Result<[u32; 8], i32> {
        assert_eq!(function, 0x84000011);
        assert_eq!(args, [0x11, 0x22, 0, 0, 0, 0, 0]);
        reply32(0x55)
    }
}

#[test]
fn psci_stat_count_32_places_its_request() {
    assert_eq!(Psci::psci_stat_count_32::<ExpectPsciStatCount32>(0x11, 0x22), Ok(0x55));
}

#[test]
fn psci_stat_count_32_maps_return_codes() {
    assert_eq!(Psci::psci_stat_count_32::<AlreadyOn>(0x11, 0x22).unwrap_err(), PsciError::AlreadyOn);
    assert_eq!(Psci::psci_stat_count_32::<Unknown>(0x11, 0x22).unwrap_err(), PsciError::Other(-42));
}

struct ExpectPsciStatCount64;

impl SmcccCall64 for ExpectPsciStatCount64 {
    fn call(function: u32, args: [u64; 17]) -> Result<[u64; 18], i64> {
        assert_eq!(function, 0xC4000011);
        assert_eq!(args, [0x1_0000_0011, 0x22, 0, 0, 0, 0, 0, 0, 0, 0, 0, 0, 0, 0, 0, 0, 0]);
        reply64(0x5_0000_0055)
    }
}

#[test]
fn psci_stat_count_64_places_its_request() {
    assert_eq!(Psci::psci_stat_count_64::<ExpectPsciStatCount64>(0x1_0000_0011, 0x22), Ok(0x5_0000_0055));
}

#[test]
fn psci_stat_count_64_maps_return_codes() {
    assert_eq!(Psci::psci_stat_count_64::<AlreadyOn>(0x1_0000_0011, 0x22).unwrap_err(), PsciError::AlreadyOn);
    assert_eq!(Psci::psci_stat_count_64::<Unknown>(0x1_0000_0011, 0x22).unwrap_err(), PsciError::Other(-42));
}

#[test]
fn every_named_return_code_has_its_error() {
    let named = [
        (-1, PsciError::NotSupported),
        (-2, PsciError::InvalidParameters),
        (-3, PsciError::Denied),
        (-4, PsciError::AlreadyOn),
        (-5, PsciError::OnPending),
        (-6, PsciError::InternalFailure),
        (-7, PsciError::NotPresent),
        (-8, PsciError::Disabled),
        (-9, PsciError::InvalidAddress),
    ];
    for (code, error) in named {
        assert_eq!(PsciError::from(code as i32), error);
        assert_eq!(PsciError::from(code as i64), error);
    }
    assert_eq!(PsciError::from(-10i32), PsciError::Other(-10));
    assert_eq!(PsciError::from(-42i64), PsciError::Other(-42));
    assert_eq!(PsciError::from(0i32), PsciError::Other(0));
    assert_eq!(PsciError::from(i64::MIN), PsciError::Other(i64::MIN));
}

#[test]
fn version_splits_major_and_minor() {
    assert_eq!(PsciVersion::from_word(0x0001_0002), PsciVersion { major: 1, minor: 2 });
    assert_eq!(PsciVersion::from_word(0xffff_ffff), PsciVersion { major: 0x7fff, minor: 0xffff });
    assert_eq!(Psci::version_of(Err(-1)), Err(PsciError::NotSupported));
}

#[test]
fn reply_words_decode_to_states() {
    assert_eq!(AffinityInfo::from(0u32), AffinityInfo::On);
    assert_eq!(AffinityInfo::from(1u64), AffinityInfo::Off);
    assert_eq!(AffinityInfo::from(2u32), AffinityInfo::OnPending);
    assert_eq!(AffinityInfo::from(3u32), AffinityInfo::Other(3));
    assert_eq!(AffinityInfo::from(u64::MAX), AffinityInfo::Other(u64::MAX));
    assert_eq!(MigrateInfoType::from(0), MigrateInfoType::UniprocessorMigrateCapable);
    assert_eq!(MigrateInfoType::from(1), MigrateInfoType::UniprocessorNotMigrateCapable);
    assert_eq!(MigrateInfoType::from(2), MigrateInfoType::MigrateNotRequired);
    assert_eq!(MigrateInfoType::from(7), MigrateInfoType::Other(7));
    assert_eq!(NodeHwState::from(0u32), NodeHwState::HwOn);
    assert_eq!(NodeHwState::from(1u64), NodeHwState::HwOff);
    assert_eq!(NodeHwState::from(2u32), NodeHwState::HwStandby);
    assert_eq!(NodeHwState::from(5u64), NodeHwState::Other(5));
    assert_eq!(u32::from(SuspendMode::Platform), 0);
    assert_eq!(u32::from(SuspendMode::OS), 1);
}

struct LongResidency;

impl SmcccCall64 for LongResidency {
    fn call(_function: u32, _args: [u64; 17]) -> Result<[u64; 18], i64> {
        reply64(1_500_000)
    }
}

impl SmcccCall32 for LongResidency {
    fn call(_function: u32, _args: [u32; 7]) -> Result<[u32; 8], i32> {
        reply32(0x7fff_ffff)
    }
}

#[test]
fn residency_is_the_reply_word_in_microseconds() {
    assert_eq!(
        Psci::psci_stat_residency_64::<LongResidency>(0, 0),
        Ok(Duration::from_micros(1_500_000))
    );
    assert_eq!(
        Psci::psci_stat_residency_64::<LongResidency>(0, 0),
        Ok(Duration::from_millis(1_500))
    );
    assert_eq!(
        Psci::psci_stat_residency_32::<LongResidency>(0, 0),
        Ok(Duration::from_micros(2_147_483_647))
    );
    assert_eq!(Psci::residency_of64(reply64(0)), Ok(Duration::ZERO));
    assert_eq!(
        Psci::residency_of64(reply64(u64::MAX)),
        Ok(Duration::from_micros(u64::MAX))
    );
    assert_eq!(
        Psci::residency_of32(reply32(u32::MAX)),
        Ok(Duration::from_micros(0xffff_ffff))
    );
}

#[test]
fn decoders_follow_the_reply() {
    assert_eq!(Psci::done32(reply32(9)), Ok(()));
    assert_eq!(Psci::done64(Err(-3)), Err(PsciError::Denied));
    assert_eq!(Psci::word32(reply32(9)), Ok(9));
    assert_eq!(Psci::word64(reply64(u64::MAX)), Ok(u64::MAX));
    assert_eq!(Psci::affinity_of32(reply32(1)), Ok(AffinityInfo::Off));
    assert_eq!(Psci::affinity_of64(Err(-2)), Err(PsciError::InvalidParameters));
    assert_eq!(Psci::migrate_type_of(reply32(0)), Ok(MigrateInfoType::UniprocessorMigrateCapable));
    assert_eq!(Psci::node_state_of32(reply32(2)), Ok(NodeHwState::HwStandby));
    assert_eq!(Psci::node_state_of64(reply64(1)), Ok(NodeHwState::HwOff));
    assert_eq!(Psci::residency_micros32(reply32(u32::MAX)), Ok(u32::MAX as u64));
    assert_eq!(Psci::residency_of32(reply32(2_000_000)), Ok(Duration::from_secs(2)));
    assert_eq!(Psci::residency_of64(reply64(3)), Ok(Duration::from_micros(3)));
    assert_eq!(Psci::residency_of64(Err(-7)), Err(PsciError::NotPresent));
}
