use renderhook::inject::{
    name_matches, select_target, wide_byte_len, wide_null_terminated, InjectError, ProcessRecord,
};
use renderhook::install::{
    entry_target, install_run, CallKind, DispatchTarget, InstallState,
};
use renderhook::mmcss::{
    avrt_priority_code, execution_speed_throttling_off, BoostGuard, MmcssPriority,
};
use renderhook::pacer::{
    patch_desc, plan_creation, plan_present, tearing_active, PresentAction, SwapChainDesc,
    WaitTable, ALPHA_MODE_IGNORE, FLAG_ALLOW_TEARING, FLAG_FRAME_LATENCY_WAITABLE_OBJECT,
    PRESENT_ALLOW_TEARING, SCALING_NONE, SWAP_EFFECT_FLIP_DISCARD,
};

fn wide(s: &str) -> Vec<u16> {
    s.encode_utf16().collect()
}

fn record(pid: u32, parent_pid: u32, name: &str) -> ProcessRecord {
    ProcessRecord { pid, parent_pid, name: wide(name) }
}

#[test]
fn selects_first_match_in_enumeration_order() {
    let snapshot = vec![
        record(10, 1, "host.exe"),
        record(11, 10, "render.exe"),
        record(12, 10, "render.exe"),
    ];
    let r = select_target(&snapshot, 10, &wide("render.exe"));
    assert_eq!(r, Ok(11));
}

#[test]
fn zero_matches_yields_not_found() {
    let snapshot = vec![record(10, 1, "host.exe"), record(11, 10, "other.exe")];
    let r = select_target(&snapshot, 10, &wide("render.exe"));
    assert_eq!(r, Err(InjectError::NotFound));
}

#[test]
fn empty_snapshot_yields_not_found() {
    let snapshot: Vec<ProcessRecord> = vec![];
    let r = select_target(&snapshot, 10, &wide("render.exe"));
    assert_eq!(r, Err(InjectError::NotFound));
}

#[test]
fn record_whose_own_id_equals_search_parent_is_excluded() {
    let snapshot = vec![record(10, 10, "render.exe")];
    let r = select_target(&snapshot, 10, &wide("render.exe"));
    assert_eq!(r, Err(InjectError::NotFound));
}

#[test]
fn wrong_parent_is_excluded() {
    let snapshot = vec![record(11, 9, "render.exe")];
    let r = select_target(&snapshot, 10, &wide("render.exe"));
    assert_eq!(r, Err(InjectError::NotFound));
}

#[test]
fn name_match_is_case_insensitive() {
    let snapshot = vec![record(11, 10, "MsEdgeWebView2.EXE")];
    let r = select_target(&snapshot, 10, &wide("msedgewebview2.exe"));
    assert_eq!(r, Ok(11));
}

#[test]
fn name_match_is_substring_and_ignores_padding() {
    let mut padded = wide("c:\\apps\\msedgewebview2.exe");
    padded.extend([0u16; 8]);
    assert!(name_matches(&padded, &wide("msedgewebview2.exe")));
    assert!(!name_matches(&wide("msedgewebview"), &wide("msedgewebview2.exe")));
    assert!(name_matches(&wide("anything"), &wide("")));
}

#[test]
fn wide_path_is_null_terminated() {
    assert_eq!(wide_null_terminated("ab"), vec![97u16, 98u16, 0u16]);
    assert_eq!(wide_null_terminated(""), vec![0u16]);
}

#[test]
fn wide_byte_len_counts_two_bytes_per_unit() {
    let units = wide_null_terminated("abc");
    assert_eq!(wide_byte_len(&units), 8);
}

#[test]
fn avrt_codes_are_the_reserved_values() {
    assert_eq!(avrt_priority_code(MmcssPriority::Low), -1);
    assert_eq!(avrt_priority_code(MmcssPriority::Normal), 0);
    assert_eq!(avrt_priority_code(MmcssPriority::High), 1);
    assert_eq!(avrt_priority_code(MmcssPriority::Critical), 2);
}

#[test]
fn throttling_control_block_disables_execution_speed() {
    let s = execution_speed_throttling_off();
    assert_eq!(s.version, 1);
    assert_eq!(s.control_mask, 1);
    assert_eq!(s.state_mask, 0);
}

fn sample_desc() -> SwapChainDesc {
    SwapChainDesc {
        width: 800,
        height: 600,
        format: 87,
        stereo: false,
        sample_count: 1,
        sample_quality: 0,
        buffer_usage: 32,
        buffer_count: 3,
        scaling: 0,
        swap_effect: 3,
        alpha_mode: 1,
        flags: 2,
    }
}

#[test]
fn patch_forces_the_low_latency_configuration() {
    let mut d = sample_desc();
    patch_desc(&mut d, false);
    assert_eq!(d.swap_effect, SWAP_EFFECT_FLIP_DISCARD);
    assert_eq!(d.buffer_count, 2);
    assert_eq!(d.alpha_mode, ALPHA_MODE_IGNORE);
    assert_eq!(d.scaling, SCALING_NONE);
    assert_eq!(d.flags, 2 | FLAG_FRAME_LATENCY_WAITABLE_OBJECT);
    assert_eq!(d.width, 800);
    assert_eq!(d.height, 600);
    assert_eq!(d.format, 87);
    assert_eq!(d.buffer_usage, 32);
}

#[test]
fn patch_sets_tearing_flag_only_when_supported() {
    let mut with_tearing = sample_desc();
    patch_desc(&mut with_tearing, true);
    assert_eq!(
        with_tearing.flags,
        2 | FLAG_FRAME_LATENCY_WAITABLE_OBJECT | FLAG_ALLOW_TEARING
    );
    let mut without = sample_desc();
    patch_desc(&mut without, false);
    assert_eq!(without.flags & FLAG_ALLOW_TEARING, 0);
}

#[test]
fn patch_is_idempotent() {
    let mut once = sample_desc();
    patch_desc(&mut once, true);
    let mut twice = once;
    patch_desc(&mut twice, true);
    assert_eq!(once, twice);
}

#[test]
fn wait_table_lookup_hits_and_misses() {
    let mut t = WaitTable::new();
    t.insert(0x1000, 7);
    t.insert(0x2000, 8);
    assert_eq!(t.lookup(0x1000), Some(7));
    assert_eq!(t.lookup(0x2000), Some(8));
    assert_eq!(t.lookup(0x3000), None);
}

#[test]
fn wait_table_insert_overwrites_one_identity() {
    let mut t = WaitTable::new();
    t.insert(0x1000, 7);
    t.insert(0x1000, 9);
    assert_eq!(t.lookup(0x1000), Some(9));
    t.insert(0x2000, 8);
    t.insert(0x1000, 11);
    assert_eq!(t.lookup(0x1000), Some(11));
    assert_eq!(t.lookup(0x2000), Some(8));
}

#[test]
fn present_on_registered_chain_waits_on_its_handle() {
    let mut t = WaitTable::new();
    t.insert(0x1000, 7);
    let a = plan_present(&t, 0x1000, false, 1, 0);
    assert_eq!(a, PresentAction { wait_handle: Some(7), flags: 0 });
}

#[test]
fn chain_created_before_install_misses_and_does_not_block() {
    let mut t = WaitTable::new();
    t.insert(0x2000, 8);
    let a = plan_present(&t, 0x1000, true, 1, 4);
    assert_eq!(a.wait_handle, None);
    assert_eq!(a.flags, 4);
    let empty = WaitTable::new();
    let b = plan_present(&empty, 0x1000, false, 0, 0);
    assert_eq!(b.wait_handle, None);
}

#[test]
fn tearing_flag_needs_support_and_zero_sync_interval() {
    let t = WaitTable::new();
    assert_eq!(plan_present(&t, 1, true, 0, 4).flags, 4 | PRESENT_ALLOW_TEARING);
    assert_eq!(plan_present(&t, 1, true, 1, 4).flags, 4);
    assert_eq!(plan_present(&t, 1, false, 0, 4).flags, 4);
    assert_eq!(plan_present(&t, 1, false, 1, 4).flags, 4);
}

#[test]
fn boost_fires_at_most_once_per_thread() {
    let mut g = BoostGuard::new();
    assert!(g.needs_boost());
    let mut fires = 0;
    // a denied registration leaves the guard ready to retry
    if g.apply_grant(None) {
        fires += 1;
    }
    assert!(g.needs_boost());
    for round in 0..100u32 {
        let grant = if g.needs_boost() { Some(5000 + round as usize) } else { None };
        if g.apply_grant(grant) {
            fires += 1;
        }
    }
    assert_eq!(fires, 1);
    assert!(!g.needs_boost());
    assert!(!g.apply_grant(Some(9999)));
}

#[test]
fn full_install_enables_all_hooks() {
    let st = install_run(Some(true), Some(100), Some(200), Some(300));
    assert_eq!(
        st,
        InstallState::HooksEnabled {
            tearing_supported: true,
            comp_original: 100,
            surface_original: Some(200),
            present_original: 300,
        }
    );
    assert_eq!(
        entry_target(&st, CallKind::CreateComposition),
        DispatchTarget::Interceptor { original: 100 }
    );
    assert_eq!(
        entry_target(&st, CallKind::CreateSurfaceHandle),
        DispatchTarget::Interceptor { original: 200 }
    );
    assert_eq!(
        entry_target(&st, CallKind::Present),
        DispatchTarget::Interceptor { original: 300 }
    );
}

#[test]
fn failed_probe_leaves_tearing_disabled_but_installs() {
    let st = install_run(None, Some(100), Some(200), Some(300));
    assert!(matches!(st, InstallState::HooksEnabled { tearing_supported: false, .. }));
}

#[test]
fn optional_surface_hook_may_be_absent() {
    let st = install_run(Some(true), Some(100), None, Some(300));
    assert!(matches!(st, InstallState::HooksEnabled { surface_original: None, .. }));
    assert_eq!(entry_target(&st, CallKind::CreateSurfaceHandle), DispatchTarget::Original);
    assert_eq!(
        entry_target(&st, CallKind::Present),
        DispatchTarget::Interceptor { original: 300 }
    );
}

#[test]
fn creation_interceptor_patches_and_delegates() {
    let st = install_run(Some(true), Some(100), None, Some(300));
    assert!(tearing_active(&st));
    let planned = plan_creation(&st, CallKind::CreateComposition, sample_desc());
    let mut expected = sample_desc();
    patch_desc(&mut expected, true);
    assert_eq!(planned, Some((100, expected)));
    // no trampoline recorded for the absent optional slot: do not delegate
    assert_eq!(plan_creation(&st, CallKind::CreateSurfaceHandle, sample_desc()), None);

    let aborted = install_run(Some(true), None, None, Some(300));
    assert!(!tearing_active(&aborted));
    assert_eq!(plan_creation(&aborted, CallKind::CreateComposition, sample_desc()), None);
}

#[test]
fn missing_required_hook_aborts_and_patches_nothing() {
    let aborted = install_run(Some(true), None, Some(200), Some(300));
    assert_eq!(aborted, InstallState::Aborted);
    assert_eq!(entry_target(&aborted, CallKind::CreateComposition), DispatchTarget::Original);
    assert_eq!(entry_target(&aborted, CallKind::CreateSurfaceHandle), DispatchTarget::Original);
    assert_eq!(entry_target(&aborted, CallKind::Present), DispatchTarget::Original);

    let no_present = install_run(Some(true), Some(100), Some(200), None);
    assert_eq!(no_present, InstallState::Aborted);
    assert_eq!(entry_target(&no_present, CallKind::Present), DispatchTarget::Original);
}
