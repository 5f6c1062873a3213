//! Frame pacer: the decisions made inside the swap-chain-creation and present
//! interceptors, on plain values.
//!
//! The creation interceptor rewrites the requested swap-chain description into
//! the low-latency configuration before delegating to the original entry, and
//! records the swap chain's frame-latency wait handle in a table keyed by the
//! swap chain's identity. The present interceptor looks that handle up — a hit
//! means "block on this handle before presenting", a miss means "present
//! unthrottled" — and decides whether the allow-tearing flag joins the present
//! flags.

use vstd::prelude::*;
use crate::install::{entry_target, spec_dispatch, CallKind, DispatchTarget, InstallState};

verus! {

/// DXGI_SWAP_EFFECT_FLIP_DISCARD: discard the back buffer on present.
pub const SWAP_EFFECT_FLIP_DISCARD: u32 = 4;

/// DXGI_ALPHA_MODE_IGNORE: treat the surface as opaque.
pub const ALPHA_MODE_IGNORE: u32 = 3;

/// DXGI_SCALING_NONE: present without scaling.
pub const SCALING_NONE: u32 = 1;

/// DXGI_SWAP_CHAIN_FLAG_FRAME_LATENCY_WAITABLE_OBJECT.
pub const FLAG_FRAME_LATENCY_WAITABLE_OBJECT: u32 = 64;

/// DXGI_SWAP_CHAIN_FLAG_ALLOW_TEARING.
pub const FLAG_ALLOW_TEARING: u32 = 2048;

/// DXGI_PRESENT_ALLOW_TEARING.
pub const PRESENT_ALLOW_TEARING: u32 = 512;

/// The fields of a swap-chain description (DXGI_SWAP_CHAIN_DESC1) as plain
/// values. Enumeration-valued fields carry the platform's numeric codes.
#[derive(Clone, Copy, PartialEq, Eq, Structural, Debug)]
pub struct SwapChainDesc {
    pub width: u32,
    pub height: u32,
    pub format: u32,
    pub stereo: bool,
    pub sample_count: u32,
    pub sample_quality: u32,
    pub buffer_usage: u32,
    pub buffer_count: u32,
    pub scaling: u32,
    pub swap_effect: u32,
    pub alpha_mode: u32,
    pub flags: u32,
}

/// The low-latency rewrite of a requested description: discard-on-present,
/// two back buffers, opaque alpha, no scaling, the frame-latency-waitable
/// capability, and — only when the tearing capability was probed true — the
/// allow-tearing capability. All other fields pass through unchanged.
pub open spec fn spec_patched(d: SwapChainDesc, tearing_supported: bool) -> SwapChainDesc {
    SwapChainDesc {
        width: d.width,
        height: d.height,
        format: d.format,
        stereo: d.stereo,
        sample_count: d.sample_count,
        sample_quality: d.sample_quality,
        buffer_usage: d.buffer_usage,
        buffer_count: 2,
        scaling: SCALING_NONE,
        swap_effect: SWAP_EFFECT_FLIP_DISCARD,
        alpha_mode: ALPHA_MODE_IGNORE,
        flags: if tearing_supported {
            d.flags | FLAG_FRAME_LATENCY_WAITABLE_OBJECT | FLAG_ALLOW_TEARING
        } else {
            d.flags | FLAG_FRAME_LATENCY_WAITABLE_OBJECT
        },
    }
}

/// Rewrites the requested description in place into the low-latency
/// configuration, before it is handed to the original creation entry.
pub fn patch_desc(desc: &mut SwapChainDesc, tearing_supported: bool)
    ensures
        *final(desc) == spec_patched(*old(desc), tearing_supported),
{
    desc.swap_effect = SWAP_EFFECT_FLIP_DISCARD;
    desc.buffer_count = 2;
    desc.alpha_mode = ALPHA_MODE_IGNORE;
    desc.scaling = SCALING_NONE;
    if tearing_supported {
        desc.flags = desc.flags | FLAG_FRAME_LATENCY_WAITABLE_OBJECT | FLAG_ALLOW_TEARING;
    } else {
        desc.flags = desc.flags | FLAG_FRAME_LATENCY_WAITABLE_OBJECT;
    }
}

/// Law: patching a description is idempotent — patching a second time changes
/// nothing.
pub proof fn lemma_patch_idempotent(d: SwapChainDesc, tearing_supported: bool)
    ensures
        spec_patched(spec_patched(d, tearing_supported), tearing_supported)
            == spec_patched(d, tearing_supported),
{
    let f = d.flags;
    if tearing_supported {
        assert(((f | 64u32 | 2048u32) | 64u32 | 2048u32) == (f | 64u32 | 2048u32)) by (bit_vector);
    } else {
        assert(((f | 64u32) | 64u32) == (f | 64u32)) by (bit_vector);
    }
}

/// No two entries of the table share a swap-chain identity.
pub open spec fn table_wf(s: Seq<(usize, usize)>) -> bool {
    forall|i: int, j: int|
        0 <= i < j < s.len() ==> (#[trigger] s[i]).0 != (#[trigger] s[j]).0
}

/// Some entry maps the swap-chain identity `key` to the wait handle `h`.
pub open spec fn table_has(s: Seq<(usize, usize)>, key: usize, h: usize) -> bool {
    exists|i: int| 0 <= i < s.len() && (#[trigger] s[i]).0 == key && s[i].1 == h
}

/// Some entry carries the swap-chain identity `key`.
pub open spec fn table_contains_key(s: Seq<(usize, usize)>, key: usize) -> bool {
    exists|i: int| 0 <= i < s.len() && (#[trigger] s[i]).0 == key
}

/// Maps a swap chain's identity (its address, as an integer) to the
/// frame-latency wait handle recorded for it at creation time. Entries are
/// inserted by the creation interceptor with overwrite semantics and looked
/// up on every present; they are never removed.
pub struct WaitTable {
    entries: Vec<(usize, usize)>,
}

impl WaitTable {
    /// The recorded (identity, wait handle) pairs, in insertion order.
    pub closed spec fn entries(self) -> Seq<(usize, usize)> {
        self.entries@
    }

    pub fn new() -> (t: Self)
        ensures
            t.entries() == Seq::<(usize, usize)>::empty(),
            table_wf(t.entries()),
    {
        let t = WaitTable { entries: Vec::new() };
        proof {
            assert(t.entries() =~= Seq::<(usize, usize)>::empty());
        }
        t
    }

    /// The wait handle recorded for `key`, if any. A miss is legal and means
    /// "do not throttle this swap chain".
    pub fn lookup(&self, key: usize) -> (r: Option<usize>)
        ensures
            match r {
                Some(h) => table_has(self.entries(), key, h),
                None => !table_contains_key(self.entries(), key),
            },
    {
        let n = self.entries.len();
        let mut i: usize = 0;
        while i < n
            invariant
                n == self.entries@.len(),
                i <= n,
                forall|j: int| 0 <= j < i ==> (#[trigger] self.entries@[j]).0 != key,
            decreases n - i,
        {
            if self.entries[i].0 == key {
                return Some(self.entries[i].1);
            }
            i = i + 1;
        }
        None
    }

    /// Records the wait handle for a swap-chain identity. An entry already
    /// present for that identity is overwritten; every other entry is kept.
    pub fn insert(&mut self, key: usize, handle: usize)
        requires
            table_wf(old(self).entries()),
        ensures
            table_wf(final(self).entries()),
            table_has(final(self).entries(), key, handle),
            forall|k2: usize, h2: usize|
                k2 != key ==> (table_has(final(self).entries(), k2, h2) <==> table_has(
                    old(self).entries(),
                    k2,
                    h2,
                )),
    {
        let n = self.entries.len();
        let mut i: usize = 0;
        while i < n
            invariant
                n == self.entries@.len(),
                i <= n,
                *self == *old(self),
                table_wf(old(self).entries()),
                forall|j: int| 0 <= j < i ==> (#[trigger] self.entries@[j]).0 != key,
            decreases n - i,
        {
            if self.entries[i].0 == key {
                self.entries[i] = (key, handle);
                proof {
                    let news = self.entries();
                    let olds = old(self).entries();
                    assert(news == olds.update(i as int, (key, handle)));
                    assert forall|a: int, b: int| 0 <= a < b < news.len() implies (
                    #[trigger] news[a]).0 != (#[trigger] news[b]).0 by {
                        assert(news[a].0 == olds[a].0);
                        assert(news[b].0 == olds[b].0);
                        assert(olds[a].0 != olds[b].0);
                    }
                    assert(table_wf(news));
                    assert(news[i as int].0 == key && news[i as int].1 == handle);
                    assert forall|k2: usize, h2: usize| k2 != key implies (table_has(news, k2, h2)
                        <==> table_has(olds, k2, h2)) by {
                        if table_has(news, k2, h2) {
                            let w = choose|w: int|
                                0 <= w < news.len() && (#[trigger] news[w]).0 == k2 && news[w].1
                                    == h2;
                            assert(w != i);
                            assert(olds[w].0 == k2 && olds[w].1 == h2);
                        }
                        if table_has(olds, k2, h2) {
                            let w = choose|w: int|
                                0 <= w < olds.len() && (#[trigger] olds[w]).0 == k2 && olds[w].1
                                    == h2;
                            assert(w != i);
                            assert(news[w].0 == k2 && news[w].1 == h2);
                        }
                    }
                }
                return;
            }
            i = i + 1;
        }
        self.entries.push((key, handle));
        proof {
            let news = self.entries();
            let olds = old(self).entries();
            assert(news == olds.push((key, handle)));
            assert(news[n as int].0 == key && news[n as int].1 == handle);
            assert forall|a: int, b: int| 0 <= a < b < news.len() implies (#[trigger] news[a]).0 != (
            #[trigger] news[b]).0 by {
                if b < n {
                    assert(news[a] == olds[a] && news[b] == olds[b]);
                } else {
                    assert(b == n);
                    assert(news[a] == olds[a]);
                    assert(olds[a].0 != key);
                }
            }
            assert forall|k2: usize, h2: usize| k2 != key implies (table_has(news, k2, h2)
                <==> table_has(olds, k2, h2)) by {
                if table_has(news, k2, h2) {
                    let w = choose|w: int|
                        0 <= w < news.len() && (#[trigger] news[w]).0 == k2 && news[w].1 == h2;
                    assert(w != n);
                    assert(olds[w].0 == k2 && olds[w].1 == h2);
                }
                if table_has(olds, k2, h2) {
                    let w = choose|w: int|
                        0 <= w < olds.len() && (#[trigger] olds[w]).0 == k2 && olds[w].1 == h2;
                    assert(news[w].0 == k2 && news[w].1 == h2);
                }
            }
        }
    }
}

/// Law: the wait table never holds two entries for one swap-chain identity.
pub proof fn lemma_wait_table_unique_keys(s: Seq<(usize, usize)>, i: int, j: int)
    requires
        table_wf(s),
        0 <= i < s.len(),
        0 <= j < s.len(),
        i != j,
    ensures
        s[i].0 != s[j].0,
{
    if i < j {
        assert(s[i].0 != s[j].0);
    } else {
        assert(s[j].0 != s[i].0);
    }
}

/// Law: one swap-chain identity determines at most one wait handle.
pub proof fn lemma_wait_handle_unique(s: Seq<(usize, usize)>, key: usize, h1: usize, h2: usize)
    requires
        table_wf(s),
        table_has(s, key, h1),
        table_has(s, key, h2),
    ensures
        h1 == h2,
{
    let i = choose|i: int| 0 <= i < s.len() && (#[trigger] s[i]).0 == key && s[i].1 == h1;
    let j = choose|j: int| 0 <= j < s.len() && (#[trigger] s[j]).0 == key && s[j].1 == h2;
    if i != j {
        lemma_wait_table_unique_keys(s, i, j);
    }
}

/// The present flags after the tearing decision: the allow-tearing flag is
/// OR'd in exactly when the capability probe reported support and the caller
/// asked for a sync interval of exactly zero.
pub open spec fn spec_present_flags(tearing_supported: bool, sync_interval: u32, flags: u32) -> u32 {
    if tearing_supported && sync_interval == 0 {
        flags | PRESENT_ALLOW_TEARING
    } else {
        flags
    }
}

/// Law: the tearing flag is applied on present only when the capability probe
/// reported true and the requested sync interval is exactly zero; on every
/// other input the flags pass through unchanged.
pub proof fn lemma_tearing_flag_condition(tearing_supported: bool, sync_interval: u32, flags: u32)
    ensures
        !(tearing_supported && sync_interval == 0) ==> spec_present_flags(
            tearing_supported,
            sync_interval,
            flags,
        ) == flags,
        (tearing_supported && sync_interval == 0) ==> spec_present_flags(
            tearing_supported,
            sync_interval,
            flags,
        ) == (flags | PRESENT_ALLOW_TEARING),
{
}

/// What the present interceptor is to do for one call: block on this wait
/// handle first (`None`: proceed unthrottled), and present with these flags.
#[derive(Clone, Copy, PartialEq, Eq, Structural, Debug)]
pub struct PresentAction {
    pub wait_handle: Option<usize>,
    pub flags: u32,
}

/// The present interceptor's decision for one call: look the swap chain up in
/// the wait table — a miss never blocks — and apply the tearing decision to
/// the caller's flags.
pub fn plan_present(
    table: &WaitTable,
    swap_chain_id: usize,
    tearing_supported: bool,
    sync_interval: u32,
    flags: u32,
) -> (a: PresentAction)
    requires
        table_wf(table.entries()),
    ensures
        a.wait_handle matches Some(h) ==> table_has(table.entries(), swap_chain_id, h),
        a.wait_handle is None <==> !table_contains_key(table.entries(), swap_chain_id),
        a.flags == spec_present_flags(tearing_supported, sync_interval, flags),
{
    let wait_handle = table.lookup(swap_chain_id);
    let flags = if tearing_supported && sync_interval == 0 {
        flags | PRESENT_ALLOW_TEARING
    } else {
        flags
    };
    PresentAction { wait_handle, flags }
}

/// Whether presentation may tear: the capability probe reported support and
/// the hooks carrying that answer are enabled.
pub open spec fn spec_tearing_active(st: InstallState) -> bool {
    st matches InstallState::HooksEnabled { tearing_supported: true, .. }
}

/// Whether presentation may tear in the given installation state.
pub fn tearing_active(st: &InstallState) -> (r: bool)
    ensures
        r == spec_tearing_active(*st),
{
    match st {
        InstallState::HooksEnabled { tearing_supported, .. } => *tearing_supported,
        _ => false,
    }
}

/// The creation interceptor's decision for one call: where to delegate, and
/// the patched description to delegate with. `None` means no trampoline is
/// recorded for this slot, so the interceptor cannot reach the slot's own
/// entry and the hosting call fails rather than crashing.
pub fn plan_creation(st: &InstallState, kind: CallKind, desc: SwapChainDesc) -> (r: Option<
    (usize, SwapChainDesc),
>)
    ensures
        match r {
            Some(d) => spec_dispatch(*st, kind) == (DispatchTarget::Interceptor { original: d.0 })
                && d.1 == spec_patched(desc, spec_tearing_active(*st)),
            None => spec_dispatch(*st, kind) is Original,
        },
{
    match entry_target(st, kind) {
        DispatchTarget::Interceptor { original } => {
            let mut patched = desc;
            patch_desc(&mut patched, tearing_active(st));
            Some((original, patched))
        },
        DispatchTarget::Original => None,
    }
}

} // verus!
