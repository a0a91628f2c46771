//! The orchestrator: bundle registry, load/unload sequencing and event
//! dispatch, composed from the scanner, the codec and the lifecycle
//! state machine.
//!
//! The registry is replaced wholesale on each scan (no incremental merge)
//! and is keyed by bundle name, the last-discovered bundle with a name
//! winning.  The active engine is independent of the registry once loaded:
//! a re-scan never invalidates it.

use vstd::prelude::*;

use crate::codec::{request_text, ShioriRequestBuilder};
use crate::detect::{
    detect_shiori_type, detect_spec, find_ghost_root_from_descript, ghost_root_of, DllEntry,
    DllEntryView, ShioriType, ShioriTypeView,
};
use crate::engine::{
    idle_state, opt_bytes_view, spec_finalize, spec_yaya_initialize, spec_yaya_load,
    spec_yaya_request, EngineLifecycleState, EngineType, IntegratedShiori, StateView, YayaEngine,
};
use crate::errors::{err_view, ErrorView, ShioriError};
use crate::foreign::{decode_shift_jis, sjis_decode_of, utf8_lossy_of};
use crate::manifest::{opt_str_view, parse_descript, parsed_value};
use crate::text::{clone_string_vec, dec_digits, dec_int, i32_to_string, join_path, seq_join, str_eq};

verus! {

/// A bundle descriptor: immutable once constructed, replaced wholesale on
/// each re-scan.  The bundle root is carried as its path components.
#[derive(Debug)]
pub struct GhostInfo {
    pub name: String,
    pub path: Vec<String>,
    pub shiori_type: ShioriType,
    pub shiori_dll: Option<String>,
    pub description: Option<String>,
    pub craftman: Option<String>,
    pub version: Option<String>,
}

/// A `GhostInfo`, seen mathematically.
pub ghost struct GhostInfoView {
    pub name: Seq<char>,
    pub path: Seq<Seq<char>>,
    pub shiori_type: ShioriTypeView,
    pub shiori_dll: Option<Seq<char>>,
    pub description: Option<Seq<char>>,
    pub craftman: Option<Seq<char>>,
    pub version: Option<Seq<char>>,
}

impl View for GhostInfo {
    type V = GhostInfoView;

    open spec fn view(&self) -> GhostInfoView {
        GhostInfoView {
            name: self.name@,
            path: self.path@.map_values(|s: String| s@),
            shiori_type: self.shiori_type@,
            shiori_dll: opt_str_view(self.shiori_dll),
            description: opt_str_view(self.description),
            craftman: opt_str_view(self.craftman),
            version: opt_str_view(self.version),
        }
    }
}

fn clone_opt_string(o: &Option<String>) -> (r: Option<String>)
    ensures
        opt_str_view(r) == opt_str_view(*o),
{
    match o {
        Some(s) => Some(s.clone()),
        None => None,
    }
}

impl GhostInfo {
    /// A copy whose view is the same.
    pub fn duplicate(&self) -> (r: Self)
        ensures
            r@ == self@,
    {
        GhostInfo {
            name: self.name.clone(),
            path: clone_string_vec(&self.path),
            shiori_type: self.shiori_type.duplicate(),
            shiori_dll: clone_opt_string(&self.shiori_dll),
            description: clone_opt_string(&self.description),
            craftman: clone_opt_string(&self.craftman),
            version: clone_opt_string(&self.version),
        }
    }
}

/// Everything the directory walk gathered about one found manifest, before
/// any decision: the manifest file's path components, its raw bytes
/// (`None` when reading failed — that bundle is skipped, the scan goes
/// on), the module files found up to two levels below the manifest's
/// directory in walk order, and the file names beside the manifest.
pub struct RawBundle {
    pub descript_path: Vec<String>,
    pub manifest: Option<Vec<u8>>,
    pub dll_files: Vec<DllEntry>,
    pub marker_files: Vec<String>,
}

/// A `RawBundle`, seen mathematically.
pub ghost struct RawBundleView {
    pub descript_path: Seq<Seq<char>>,
    pub manifest: Option<Seq<u8>>,
    pub dll_files: Seq<DllEntryView>,
    pub marker_files: Seq<Seq<char>>,
}

impl View for RawBundle {
    type V = RawBundleView;

    open spec fn view(&self) -> RawBundleView {
        RawBundleView {
            descript_path: self.descript_path@.map_values(|s: String| s@),
            manifest: match self.manifest {
                Some(ref b) => Some(b@),
                None => None,
            },
            dll_files: self.dll_files@.map_values(|e: DllEntry| e@),
            marker_files: self.marker_files@.map_values(|s: String| s@),
        }
    }
}

/// The descriptor a raw bundle yields: `None` when the bundle root cannot
/// be resolved or the manifest was unreadable; otherwise always a
/// descriptor — a manifest that decodes badly still yields one, with
/// best-effort fields.
pub open spec fn analyze_spec(b: RawBundleView) -> Option<GhostInfoView> {
    match ghost_root_of(b.descript_path) {
        None => None,
        Some(root) => match b.manifest {
            None => None,
            Some(bytes) => {
                let text = sjis_decode_of(bytes);
                let det = detect_spec(b.dll_files, b.marker_files);
                Some(
                    GhostInfoView {
                        name: if root.len() > 0 {
                            root.last()
                        } else {
                            Seq::empty()
                        },
                        path: root,
                        shiori_type: det.0,
                        shiori_dll: det.1,
                        description: parsed_value(text, "name"@),
                        craftman: parsed_value(text, "craftman"@),
                        version: parsed_value(text, "version"@),
                    },
                )
            },
        },
    }
}

/// Derives a bundle descriptor from one raw bundle, as `analyze_spec`
/// describes it.
pub fn analyze_ghost_directory(bundle: &RawBundle) -> (r: Option<GhostInfo>)
    ensures
        match r {
            Some(g) => analyze_spec(bundle@) == Some(g@),
            None => analyze_spec(bundle@) is None,
        },
{
    let root = match find_ghost_root_from_descript(&bundle.descript_path) {
        Some(root) => root,
        None => {
            return None;
        },
    };
    let bytes = match bundle.manifest {
        Some(ref b) => b,
        None => {
            return None;
        },
    };
    let text = decode_shift_jis(bytes.as_slice());
    let kv = parse_descript(text.as_str());
    let det = detect_shiori_type(&bundle.dll_files, &bundle.marker_files);
    let name = if root.len() > 0 {
        root[root.len() - 1].clone()
    } else {
        String::new()
    };
    proof {
        if root@.map_values(|s: String| s@).len() > 0 {
            assert(root@.map_values(|s: String| s@).last() == root@[root@.len() - 1]@);
        }
    }
    Some(
        GhostInfo {
            name,
            path: root,
            shiori_type: det.0,
            shiori_dll: det.1,
            description: kv.0,
            craftman: kv.1,
            version: kv.2,
        },
    )
}

/// A decoding failure is tolerated: a descriptor is withheld exactly when
/// the bundle root cannot be resolved or the manifest file could not be
/// read — never for what the manifest's bytes hold, since decoding is
/// total and lossy.
pub proof fn lemma_bad_encoding_still_a_descriptor(b: RawBundleView)
    ensures
        analyze_spec(b) is Some <==> (ghost_root_of(b.descript_path) is Some
            && b.manifest is Some),
{
}

// ------------------------------------------------------------------
// The registry.
// ------------------------------------------------------------------

/// A list of descriptors, seen mathematically.
pub open spec fn reg_view(reg: Seq<GhostInfo>) -> Seq<GhostInfoView> {
    reg.map_values(|x: GhostInfo| x@)
}

/// No two registry entries share a name.
pub open spec fn reg_unique(reg: Seq<GhostInfoView>) -> bool {
    forall|i: int, j: int|
        0 <= i < j < reg.len() ==> (#[trigger] reg[i].name) != (#[trigger] reg[j].name)
}

/// Whether the registry holds a bundle of this name.
pub open spec fn reg_has(reg: Seq<GhostInfoView>, name: Seq<char>) -> bool {
    exists|k: int| 0 <= k < reg.len() && (#[trigger] reg[k].name) == name
}

/// The registry entry of this name (meaningful under `reg_unique`).
pub open spec fn reg_get(reg: Seq<GhostInfoView>, name: Seq<char>) -> GhostInfoView {
    reg[choose|k: int| 0 <= k < reg.len() && (#[trigger] reg[k].name) == name]
}

/// The registry lookup: the entry of this name, if any.
pub open spec fn reg_get_opt(reg: Seq<GhostInfoView>, name: Seq<char>) -> Option<GhostInfoView> {
    if reg_has(reg, name) {
        Some(reg_get(reg, name))
    } else {
        None
    }
}

/// The last-discovered descriptor of a given name, which wins.
pub open spec fn last_ghost(found: Seq<GhostInfoView>, name: Seq<char>) -> Option<GhostInfoView>
    decreases found.len(),
{
    if found.len() == 0 {
        None
    } else if found.last().name == name {
        Some(found.last())
    } else {
        last_ghost(found.drop_last(), name)
    }
}

/// The descriptors that a scan's raw bundles yield, in walk order.
pub open spec fn scan_results(bundles: Seq<RawBundleView>) -> Seq<GhostInfoView>
    decreases bundles.len(),
{
    if bundles.len() == 0 {
        seq![]
    } else {
        scan_results(bundles.drop_last()) + match analyze_spec(bundles.last()) {
            Some(g) => seq![g],
            None => seq![],
        }
    }
}

/// Replaces or appends `g` so that lookups of its name yield `g` and every
/// other lookup is untouched.
fn install_ghost(reg: &mut Vec<GhostInfo>, g: GhostInfo)
    requires
        reg_unique(reg_view(old(reg)@)),
    ensures
        reg_unique(reg_view(final(reg)@)),
        forall|nm: Seq<char>|
            #[trigger] reg_get_opt(reg_view(final(reg)@), nm) == (if nm == g@.name {
                Some(g@)
            } else {
                reg_get_opt(reg_view(old(reg)@), nm)
            }),
{
    let ghost oldv = reg_view(reg@);
    let mut i: usize = 0;
    while i < reg.len()
        invariant
            oldv == reg_view(reg@),
            oldv == reg_view(old(reg)@),
            oldv.len() == reg@.len(),
            reg_unique(oldv),
            0 <= i <= reg@.len(),
            forall|k: int| 0 <= k < i ==> (#[trigger] oldv[k].name) != g@.name,
        decreases reg@.len() - i,
    {
        if str_eq(reg[i].name.as_str(), g.name.as_str()) {
            proof {
                assert(oldv[i as int].name == g@.name);
            }
            reg.remove(i);
            reg.insert(i, g);
            proof {
                let newv = reg_view(reg@);
                assert(newv =~= oldv.update(i as int, g@));
                assert forall|nm: Seq<char>|
                    #[trigger] reg_get_opt(newv, nm) == (if nm == g@.name {
                        Some(g@)
                    } else {
                        reg_get_opt(oldv, nm)
                    }) by {
                    lemma_reg_update(oldv, newv, i as int, g@, nm);
                }
            }
            return;
        }
        i += 1;
    }
    proof {
        assert(forall|k: int| 0 <= k < oldv.len() ==> (#[trigger] oldv[k].name) != g@.name);
    }
    reg.push(g);
    proof {
        let newv = reg_view(reg@);
        assert(newv =~= oldv.push(g@));
        assert forall|nm: Seq<char>|
            #[trigger] reg_get_opt(newv, nm) == (if nm == g@.name {
                Some(g@)
            } else {
                reg_get_opt(oldv, nm)
            }) by {
            lemma_reg_push(oldv, newv, g@, nm);
        }
    }
}

proof fn lemma_reg_update(
    oldv: Seq<GhostInfoView>,
    newv: Seq<GhostInfoView>,
    i: int,
    g: GhostInfoView,
    nm: Seq<char>,
)
    requires
        reg_unique(oldv),
        0 <= i < oldv.len(),
        oldv[i].name == g.name,
        newv == oldv.update(i, g),
    ensures
        reg_unique(newv),
        reg_get_opt(newv, nm) == (if nm == g.name {
            Some(g)
        } else {
            reg_get_opt(oldv, nm)
        }),
{
    assert(forall|k: int|
        0 <= k < newv.len() && k != i ==> (#[trigger] newv[k].name) == oldv[k].name);
    assert(newv[i].name == g.name);
    assert(reg_unique(newv));
    if nm == g.name {
        assert(reg_has(newv, nm));
        let k = choose|k: int| 0 <= k < newv.len() && (#[trigger] newv[k].name) == nm;
        assert(k == i);
    } else {
        if reg_has(newv, nm) {
            let k = choose|k: int| 0 <= k < newv.len() && (#[trigger] newv[k].name) == nm;
            assert(k != i);
            assert(oldv[k].name == nm);
            assert(reg_has(oldv, nm));
            let k2 = choose|k2: int| 0 <= k2 < oldv.len() && (#[trigger] oldv[k2].name) == nm;
            assert(k2 == k);
            assert(reg_get(newv, nm) == reg_get(oldv, nm));
        }
        if reg_has(oldv, nm) {
            let k = choose|k: int| 0 <= k < oldv.len() && (#[trigger] oldv[k].name) == nm;
            assert(k != i);
            assert(newv[k].name == nm);
            assert(reg_has(newv, nm));
        }
    }
}

proof fn lemma_reg_push(
    oldv: Seq<GhostInfoView>,
    newv: Seq<GhostInfoView>,
    g: GhostInfoView,
    nm: Seq<char>,
)
    requires
        reg_unique(oldv),
        forall|k: int| 0 <= k < oldv.len() ==> (#[trigger] oldv[k].name) != g.name,
        newv == oldv.push(g),
    ensures
        reg_unique(newv),
        reg_get_opt(newv, nm) == (if nm == g.name {
            Some(g)
        } else {
            reg_get_opt(oldv, nm)
        }),
{
    assert(forall|k: int|
        0 <= k < oldv.len() ==> (#[trigger] newv[k].name) == oldv[k].name);
    assert(newv[newv.len() - 1] == g);
    assert(reg_unique(newv));
    if nm == g.name {
        assert(reg_has(newv, nm));
        let k = choose|k: int| 0 <= k < newv.len() && (#[trigger] newv[k].name) == nm;
        assert(k == newv.len() - 1);
    } else {
        if reg_has(newv, nm) {
            let k = choose|k: int| 0 <= k < newv.len() && (#[trigger] newv[k].name) == nm;
            assert(k < oldv.len());
            assert(reg_has(oldv, nm));
            let k2 = choose|k2: int| 0 <= k2 < oldv.len() && (#[trigger] oldv[k2].name) == nm;
            assert(k2 == k);
        }
        if reg_has(oldv, nm) {
            let k = choose|k: int| 0 <= k < oldv.len() && (#[trigger] oldv[k].name) == nm;
            assert(newv[k].name == nm);
        }
    }
}

// ------------------------------------------------------------------
// Event request text.
// ------------------------------------------------------------------

/// The headers of a UI event request: the `ID` header naming the event,
/// then one `Reference<i>` header per positional argument, in order.
pub open spec fn event_headers(event: Seq<char>, refs: Seq<Seq<char>>) -> Seq<
    (Seq<char>, Seq<char>),
> {
    seq![("ID"@, event)] + Seq::new(refs.len(), |i: int| ("Reference"@ + dec_digits(i), refs[i]))
}

/// The full text of a UI event request.
pub open spec fn event_request(event: Seq<char>, refs: Seq<Seq<char>>) -> Seq<char> {
    request_text("GET"@, "SHIORI/3.0"@, event_headers(event, refs))
}

/// The synthetic boot request sent right after a successful load.
pub open spec fn boot_request() -> Seq<char> {
    event_request("OnBoot"@, seq![])
}

/// The synthetic close request sent right before unload.
pub open spec fn close_request() -> Seq<char> {
    event_request("OnClose"@, seq![])
}

/// Builds the text of a UI event request, as `event_request` describes it.
pub fn build_event_request(event: &str, references: &Vec<String>) -> (r: String)
    ensures
        r@ == event_request(event@, references@.map_values(|s: String| s@)),
{
    let ghost rv = references@.map_values(|s: String| s@);
    let mut b = ShioriRequestBuilder::new().header("ID", event);
    proof {
        assert(b@.headers =~= event_headers(event@, rv.take(0)));
    }
    let mut i: usize = 0;
    while i < references.len()
        invariant
            rv == references@.map_values(|s: String| s@),
            rv.len() == references@.len(),
            0 <= i <= references@.len(),
            b@.method == "GET"@,
            b@.version == "SHIORI/3.0"@,
            b@.headers == event_headers(event@, rv.take(i as int)),
        decreases references@.len() - i,
    {
        b = b.reference(i, references[i].as_str());
        proof {
            assert(b@.headers =~= event_headers(event@, rv.take(i + 1)));
        }
        i += 1;
    }
    proof {
        assert(rv.take(rv.len() as int) =~= rv);
    }
    b.build()
}

// ------------------------------------------------------------------
// The orchestrator.
// ------------------------------------------------------------------

/// A `ShioriManager`, seen mathematically.
pub ghost struct ManagerView {
    pub ghosts: Seq<GhostInfoView>,
    pub current: Option<Seq<char>>,
    pub engine: StateView,
}

impl ManagerView {
    /// Well-formedness: registry names unique, engine state well-formed,
    /// and a bundle is selected exactly while an engine is loaded or
    /// active — the selection is the only "current" pointer.
    pub open spec fn wf(self) -> bool {
        &&& reg_unique(self.ghosts)
        &&& self.engine.wf()
        &&& ((self.current is Some) <==> (self.engine.lifecycle is Loaded
            || self.engine.lifecycle is Active))
    }
}

/// The outcomes of the four boundary calls a load makes, in call order:
/// initialize, set-directory, load, and the synthetic boot request.
pub struct LoadOutcomes {
    pub init_status: i32,
    pub set_dir_status: i32,
    pub load_status: i32,
    pub boot_reply: Option<Vec<u8>>,
}

/// A `LoadOutcomes`, seen mathematically.
pub ghost struct LoadOutcomesView {
    pub init_status: int,
    pub set_dir_status: int,
    pub load_status: int,
    pub boot_reply: Option<Seq<u8>>,
}

impl View for LoadOutcomes {
    type V = LoadOutcomesView;

    open spec fn view(&self) -> LoadOutcomesView {
        LoadOutcomesView {
            init_status: self.init_status as int,
            set_dir_status: self.set_dir_status as int,
            load_status: self.load_status as int,
            boot_reply: match self.boot_reply {
                Some(ref b) => Some(b@),
                None => None,
            },
        }
    }
}

/// The load transition, in boundary call order: whatever engine was there
/// is finalized first (unconditionally, best-effort); then the named
/// bundle's detected family selects the engine; family A runs initialize,
/// load, then the synthetic boot request; the bundle becomes current only
/// when all of them succeed, and any failure leaves the engine at `Idle`
/// with nothing retained.
pub open spec fn spec_load_ghost(m: ManagerView, name: Seq<char>, out: LoadOutcomesView) -> (
    ManagerView,
    Option<ErrorView>,
) {
    let base = ManagerView { ghosts: m.ghosts, current: None, engine: spec_finalize(m.engine) };
    match reg_get_opt(m.ghosts, name) {
        None => (base, Some(ErrorView::GhostNotFound(name))),
        Some(g) => match g.shiori_type {
            ShioriTypeView::Unknown(_) => (base, Some(ErrorView::NoEngineDetected)),
            ShioriTypeView::SATORIYA => (base, Some(ErrorView::NotSupported)),
            ShioriTypeView::YAYA => {
                let dir = seq_join(g.path, seq!['/']);
                let st_init = spec_yaya_initialize(
                    base.engine,
                    dir,
                    out.init_status,
                    out.set_dir_status,
                );
                if st_init.1 is Some {
                    (ManagerView { engine: st_init.0, ..base }, st_init.1)
                } else {
                    let st_load = spec_yaya_load(st_init.0, out.load_status);
                    if st_load.1 is Some {
                        (ManagerView { engine: st_load.0, ..base }, st_load.1)
                    } else {
                        let st_boot = spec_yaya_request(
                            st_load.0,
                            boot_request(),
                            out.boot_reply,
                        );
                        if st_boot.1 is Some {
                            (ManagerView { engine: idle_state(), ..base }, st_boot.1)
                        } else {
                            (
                                ManagerView {
                                    ghosts: m.ghosts,
                                    current: Some(name),
                                    engine: st_boot.0,
                                },
                                None,
                            )
                        }
                    }
                }
            },
        },
    }
}

/// The request transition: rejected outright while no bundle is current;
/// otherwise one boundary request exchange.
pub open spec fn spec_send_request(
    m: ManagerView,
    text: Seq<char>,
    reply: Option<Seq<u8>>,
) -> (ManagerView, Option<ErrorView>) {
    if m.current is None {
        (m, Some(ErrorView::NotInitialized))
    } else {
        let st = spec_yaya_request(m.engine, text, reply);
        (ManagerView { engine: st.0, ..m }, st.1)
    }
}

/// The event transition: the event request text is built, then sent.
pub open spec fn spec_send_event(
    m: ManagerView,
    event: Seq<char>,
    refs: Seq<Seq<char>>,
    reply: Option<Seq<u8>>,
) -> (ManagerView, Option<ErrorView>) {
    spec_send_request(m, event_request(event, refs), reply)
}

/// The unload transition: always reaches the no-bundle, idle-engine state,
/// with the registry untouched.
pub open spec fn spec_unload(m: ManagerView) -> ManagerView {
    ManagerView { ghosts: m.ghosts, current: None, engine: idle_state() }
}

/// The orchestrator: the bundle registry, the current selection, and the
/// one process-wide engine.  Owned explicitly so tests can instantiate
/// independent instances; the embedding program serializes calls.
pub struct ShioriManager {
    ghosts: Vec<GhostInfo>,
    current_ghost: Option<String>,
    shiori: IntegratedShiori,
}

impl View for ShioriManager {
    type V = ManagerView;

    closed spec fn view(&self) -> ManagerView {
        ManagerView {
            ghosts: reg_view(self.ghosts@),
            current: opt_str_view(self.current_ghost),
            engine: self.shiori@,
        }
    }
}

fn lookup_ghost(reg: &Vec<GhostInfo>, name: &str) -> (r: Option<GhostInfo>)
    requires
        reg_unique(reg_view(reg@)),
    ensures
        match r {
            Some(g) => reg_get_opt(reg_view(reg@), name@) == Some(g@),
            None => reg_get_opt(reg_view(reg@), name@) is None,
        },
{
    let ghost rv = reg_view(reg@);
    let mut i: usize = 0;
    while i < reg.len()
        invariant
            rv == reg_view(reg@),
            rv.len() == reg@.len(),
            reg_unique(rv),
            0 <= i <= reg@.len(),
            forall|k: int| 0 <= k < i ==> (#[trigger] rv[k].name) != name@,
        decreases reg@.len() - i,
    {
        if str_eq(reg[i].name.as_str(), name) {
            proof {
                assert(rv[i as int].name == name@);
                assert(reg_has(rv, name@));
                let k = choose|k: int| 0 <= k < rv.len() && (#[trigger] rv[k].name) == name@;
                assert(k == i);
            }
            return Some(reg[i].duplicate());
        }
        i += 1;
    }
    proof {
        if reg_has(rv, name@) {
            let k = choose|k: int| 0 <= k < rv.len() && (#[trigger] rv[k].name) == name@;
            assert(false);
        }
    }
    None
}

impl ShioriManager {
    /// A fresh orchestrator: empty registry, nothing selected, idle engine.
    pub fn new() -> (r: Self)
        ensures
            r@.wf(),
            r@.ghosts == Seq::<GhostInfoView>::empty(),
            r@.current is None,
            r@.engine == idle_state(),
    {
        let r = ShioriManager {
            ghosts: Vec::new(),
            current_ghost: None,
            shiori: IntegratedShiori::new(),
        };
        proof {
            assert(r@.ghosts =~= Seq::<GhostInfoView>::empty());
        }
        r
    }

    /// Installs a scan's results: the registry is replaced wholesale by
    /// the descriptors the raw bundles yield, keyed by name with the
    /// last-discovered bundle winning — no stale entry survives.  The
    /// selection and the engine are untouched: a re-scan never
    /// invalidates the active engine.
    pub fn scan_ghost_directory(&mut self, bundles: Vec<RawBundle>)
        requires
            old(self)@.wf(),
        ensures
            final(self)@.wf(),
            final(self)@.current == old(self)@.current,
            final(self)@.engine == old(self)@.engine,
            forall|nm: Seq<char>|
                #[trigger] reg_get_opt(final(self)@.ghosts, nm) == last_ghost(
                    scan_results(bundles@.map_values(|b: RawBundle| b@)),
                    nm,
                ),
    {
        let ghost bv = bundles@.map_values(|b: RawBundle| b@);
        let mut reg: Vec<GhostInfo> = Vec::new();
        proof {
            assert(reg_view(reg@) =~= Seq::<GhostInfoView>::empty());
            assert(bv.take(0) =~= Seq::<RawBundleView>::empty());
        }
        let mut i: usize = 0;
        while i < bundles.len()
            invariant
                bv == bundles@.map_values(|b: RawBundle| b@),
                bv.len() == bundles@.len(),
                0 <= i <= bundles@.len(),
                reg_unique(reg_view(reg@)),
                forall|nm: Seq<char>|
                    #[trigger] reg_get_opt(reg_view(reg@), nm) == last_ghost(
                        scan_results(bv.take(i as int)),
                        nm,
                    ),
            decreases bundles@.len() - i,
        {
            proof {
                assert(bv.take(i + 1).drop_last() =~= bv.take(i as int));
                assert(bv.take(i + 1).last() == bv[i as int]);
                assert(bv[i as int] == bundles@[i as int]@);
            }
            match analyze_ghost_directory(&bundles[i]) {
                Some(g) => {
                    let ghost gv = g@;
                    let ghost prev = reg_view(reg@);
                    install_ghost(&mut reg, g);
                    proof {
                        assert(scan_results(bv.take(i + 1)) =~= scan_results(
                            bv.take(i as int),
                        ).push(gv));
                        assert(scan_results(bv.take(i + 1)).drop_last() =~= scan_results(
                            bv.take(i as int),
                        ));
                        assert forall|nm: Seq<char>|
                            #[trigger] reg_get_opt(reg_view(reg@), nm) == last_ghost(
                                scan_results(bv.take(i + 1)),
                                nm,
                            ) by {
                            assert(reg_get_opt(reg_view(reg@), nm) == (if nm == gv.name {
                                Some(gv)
                            } else {
                                reg_get_opt(prev, nm)
                            }));
                        }
                    }
                },
                None => {
                    proof {
                        assert(scan_results(bv.take(i + 1)) =~= scan_results(bv.take(i as int)));
                    }
                },
            }
            i += 1;
        }
        proof {
            assert(bv.take(bv.len() as int) =~= bv);
        }
        self.ghosts = reg;
    }

    /// Loads the named bundle, as `spec_load_ghost` describes it: finalize
    /// whatever was loaded, select the family the scan detected, apply the
    /// initialize, load and boot outcomes in order, and make the bundle
    /// current exactly on full success.
    pub fn load_ghost(&mut self, ghost_name: &str, out: LoadOutcomes) -> (r: Result<
        (),
        ShioriError,
    >)
        requires
            old(self)@.wf(),
        ensures
            final(self)@ == spec_load_ghost(old(self)@, ghost_name@, out@).0,
            err_view(r) == spec_load_ghost(old(self)@, ghost_name@, out@).1,
            final(self)@.wf(),
    {
        let _ = self.shiori.finalize();
        self.current_ghost = None;
        let info = match lookup_ghost(&self.ghosts, ghost_name) {
            Some(info) => info,
            None => {
                return Err(ShioriError::GhostNotFound(ghost_name.to_owned()));
            },
        };
        match info.shiori_type {
            ShioriType::YAYA => {},
            ShioriType::SATORIYA => {
                return Err(ShioriError::NotSupported);
            },
            ShioriType::Unknown(_) => {
                return Err(ShioriError::NoEngineDetected);
            },
        }
        let dir = join_path(&info.path);
        match YayaEngine::initialize(
            &mut self.shiori.state,
            dir.as_str(),
            out.init_status,
            out.set_dir_status,
        ) {
            Ok(_) => {},
            Err(e) => {
                return Err(e);
            },
        }
        match YayaEngine::load(&mut self.shiori.state, out.load_status) {
            Ok(_) => {},
            Err(e) => {
                return Err(e);
            },
        }
        let no_refs: Vec<String> = Vec::new();
        let boot = build_event_request("OnBoot", &no_refs);
        proof {
            assert(no_refs@.map_values(|s: String| s@) =~= Seq::<Seq<char>>::empty());
        }
        match YayaEngine::request(&mut self.shiori.state, boot.as_str(), out.boot_reply) {
            Ok(_) => {},
            Err(e) => {
                let _ = YayaEngine::finalize(&mut self.shiori.state);
                return Err(e);
            },
        }
        self.current_ghost = Some(ghost_name.to_owned());
        Ok(())
    }

    /// Sends raw request text, as `spec_send_request` describes it.
    pub fn send_request(&mut self, request: &str, reply: Option<Vec<u8>>) -> (r: Result<
        String,
        ShioriError,
    >)
        requires
            old(self)@.wf(),
        ensures
            final(self)@ == spec_send_request(old(self)@, request@, opt_bytes_view(reply)).0,
            err_view(r) == spec_send_request(old(self)@, request@, opt_bytes_view(reply)).1,
            r is Ok ==> reply is Some && r->Ok_0@ == utf8_lossy_of(reply->Some_0@),
            final(self)@.wf(),
    {
        if self.current_ghost.is_none() {
            return Err(ShioriError::NotInitialized);
        }
        self.shiori.request(request, reply)
    }

    /// Sends a UI event with positional arguments, as `spec_send_event`
    /// describes it.
    pub fn send_event(&mut self, event: &str, references: &Vec<String>, reply: Option<Vec<u8>>)
        -> (r: Result<String, ShioriError>)
        requires
            old(self)@.wf(),
        ensures
            final(self)@ == spec_send_event(
                old(self)@,
                event@,
                references@.map_values(|s: String| s@),
                opt_bytes_view(reply),
            ).0,
            err_view(r) == spec_send_event(
                old(self)@,
                event@,
                references@.map_values(|s: String| s@),
                opt_bytes_view(reply),
            ).1,
            r is Ok ==> reply is Some && r->Ok_0@ == utf8_lossy_of(reply->Some_0@),
            final(self)@.wf(),
    {
        if self.current_ghost.is_none() {
            return Err(ShioriError::NotInitialized);
        }
        let text = build_event_request(event, references);
        self.shiori.request(text.as_str(), reply)
    }

    /// Sends the mouse-click event: coordinates then button name as the
    /// references.
    pub fn on_mouse_click(&mut self, x: i32, y: i32, button: &str, reply: Option<Vec<u8>>) -> (r:
        Result<String, ShioriError>)
        requires
            old(self)@.wf(),
        ensures
            final(self)@ == spec_send_event(
                old(self)@,
                "OnMouseClick"@,
                seq![dec_int(x as int), dec_int(y as int), button@],
                opt_bytes_view(reply),
            ).0,
            err_view(r) == spec_send_event(
                old(self)@,
                "OnMouseClick"@,
                seq![dec_int(x as int), dec_int(y as int), button@],
                opt_bytes_view(reply),
            ).1,
            r is Ok ==> reply is Some && r->Ok_0@ == utf8_lossy_of(reply->Some_0@),
            final(self)@.wf(),
    {
        let mut refs: Vec<String> = Vec::new();
        refs.push(i32_to_string(x));
        refs.push(i32_to_string(y));
        refs.push(button.to_owned());
        proof {
            assert(refs@.map_values(|s: String| s@) =~= seq![
                dec_int(x as int),
                dec_int(y as int),
                button@,
            ]);
        }
        self.send_event("OnMouseClick", &refs, reply)
    }

    /// Sends the per-second tick event.
    pub fn on_second_change(&mut self, reply: Option<Vec<u8>>) -> (r: Result<String, ShioriError>)
        requires
            old(self)@.wf(),
        ensures
            final(self)@ == spec_send_event(
                old(self)@,
                "OnSecondChange"@,
                seq![],
                opt_bytes_view(reply),
            ).0,
            err_view(r) == spec_send_event(
                old(self)@,
                "OnSecondChange"@,
                seq![],
                opt_bytes_view(reply),
            ).1,
            r is Ok ==> reply is Some && r->Ok_0@ == utf8_lossy_of(reply->Some_0@),
            final(self)@.wf(),
    {
        let no_refs: Vec<String> = Vec::new();
        proof {
            assert(no_refs@.map_values(|s: String| s@) =~= Seq::<Seq<char>>::empty());
        }
        self.send_event("OnSecondChange", &no_refs, reply)
    }

    /// The name of the currently loaded bundle, if any.
    pub fn current_ghost(&self) -> (r: Option<String>)
        ensures
            opt_str_view(r) == self@.current,
    {
        clone_opt_string(&self.current_ghost)
    }

    /// Every registered bundle descriptor.
    pub fn get_all_ghosts(&self) -> (r: Vec<GhostInfo>)
        ensures
            reg_view(r@) == self@.ghosts,
    {
        let mut out: Vec<GhostInfo> = Vec::new();
        let mut i: usize = 0;
        while i < self.ghosts.len()
            invariant
                0 <= i <= self.ghosts@.len(),
                out@.len() == i,
                forall|k: int| 0 <= k < i ==> out@[k]@ == #[trigger] self.ghosts@[k]@,
            decreases self.ghosts@.len() - i,
        {
            out.push(self.ghosts[i].duplicate());
            i += 1;
        }
        proof {
            assert(reg_view(out@) =~= reg_view(self.ghosts@));
        }
        out
    }

    /// The registered descriptor of this name, if any.
    pub fn get_ghost_info(&self, name: &str) -> (r: Option<GhostInfo>)
        requires
            self@.wf(),
        ensures
            match r {
                Some(g) => reg_get_opt(self@.ghosts, name@) == Some(g@),
                None => reg_get_opt(self@.ghosts, name@) is None,
            },
    {
        lookup_ghost(&self.ghosts, name)
    }

    /// Whether an engine is currently loaded.
    pub fn is_shiori_loaded(&self) -> (r: bool)
        ensures
            r == (self@.current is Some),
    {
        self.current_ghost.is_some()
    }

    /// Unloads the current bundle: the synthetic close event is sent with
    /// its result ignored, then the unload entry point, then finalize;
    /// the no-bundle idle state is always reached, so a second unload is
    /// a safe no-op, and unload never fails.
    pub fn unload_current_ghost(&mut self, close_reply: Option<Vec<u8>>, unload_status: i32)
        -> (r: Result<(), ShioriError>)
        requires
            old(self)@.wf(),
        ensures
            r is Ok,
            final(self)@ == spec_unload(old(self)@),
            final(self)@.wf(),
    {
        if self.current_ghost.is_some() {
            let no_refs: Vec<String> = Vec::new();
            let close = build_event_request("OnClose", &no_refs);
            let _ = self.shiori.request(close.as_str(), close_reply);
            let _ = self.shiori.unload(unload_status);
        }
        let _ = self.shiori.finalize();
        self.current_ghost = None;
        Ok(())
    }
}

// ------------------------------------------------------------------
// Laws.
// ------------------------------------------------------------------

/// A request sent while the engine is idle is rejected with the
/// illegal-state failure and changes nothing, whatever the reply buffer
/// would have been: the boundary has no reason to be touched.
pub proof fn lemma_send_rejected_when_idle(
    m: ManagerView,
    text: Seq<char>,
    reply: Option<Seq<u8>>,
)
    requires
        m.wf(),
        m.engine.lifecycle is Idle,
    ensures
        spec_send_request(m, text, reply) == (m, Some(ErrorView::NotInitialized)),
{
}

/// After a load succeeds, the named bundle is current and the engine is
/// active; after unload both revert; a second unload is a safe no-op.
pub proof fn lemma_load_unload_round_trip(m: ManagerView, name: Seq<char>, out: LoadOutcomesView)
    requires
        spec_load_ghost(m, name, out).1 is None,
    ensures
        spec_load_ghost(m, name, out).0.current == Some(name),
        spec_load_ghost(m, name, out).0.engine.lifecycle is Active,
        spec_unload(spec_load_ghost(m, name, out).0).current is None,
        spec_unload(spec_load_ghost(m, name, out).0).engine == idle_state(),
        spec_unload(spec_unload(spec_load_ghost(m, name, out).0)) == spec_unload(
            spec_load_ghost(m, name, out).0,
        ),
{
}

proof fn lemma_no_nul_concat(a: Seq<char>, b: Seq<char>)
    ensures
        crate::text::has_nul(a + b) == (crate::text::has_nul(a) || crate::text::has_nul(b)),
{
    if crate::text::has_nul(a) {
        let k = choose|k: int| 0 <= k < a.len() && a[k] == '\u{0}';
        assert((a + b)[k] == '\u{0}');
    }
    if crate::text::has_nul(b) {
        let k = choose|k: int| 0 <= k < b.len() && b[k] == '\u{0}';
        assert((a + b)[a.len() + k] == '\u{0}');
    }
    if crate::text::has_nul(a + b) {
        let k = choose|k: int| 0 <= k < (a + b).len() && (a + b)[k] == '\u{0}';
        if k < a.len() {
            assert(a[k] == '\u{0}');
        } else {
            assert(b[k - a.len()] == '\u{0}');
        }
    }
}

/// The synthetic boot request text crosses the boundary: no interior NUL.
pub proof fn lemma_boot_request_no_nul()
    ensures
        !crate::text::has_nul(boot_request()),
{
    reveal_strlit("GET");
    reveal_strlit("SHIORI/3.0");
    reveal_strlit("ID");
    reveal_strlit("OnBoot");
    reveal_strlit("Reference");
    let hs = event_headers("OnBoot"@, seq![]);
    assert(hs =~= seq![("ID"@, "OnBoot"@)]);
    let line = crate::codec::header_line("ID"@, "OnBoot"@);
    assert(hs.len() == 1);
    assert(hs.drop_last() =~= Seq::<(Seq<char>, Seq<char>)>::empty());
    assert(crate::codec::header_lines(hs.drop_last()) =~= Seq::<char>::empty());
    assert(hs.last() == ("ID"@, "OnBoot"@));
    assert(crate::codec::header_lines(hs) =~= Seq::<char>::empty() + line);
    assert(!crate::text::has_nul("GET"@)) by {
        if crate::text::has_nul("GET"@) {
            let k = choose|k: int| 0 <= k < "GET"@.len() && "GET"@[k] == '\u{0}';
            assert(false);
        }
    }
    assert(!crate::text::has_nul("SHIORI/3.0"@)) by {
        if crate::text::has_nul("SHIORI/3.0"@) {
            let k = choose|k: int| 0 <= k < "SHIORI/3.0"@.len() && "SHIORI/3.0"@[k] == '\u{0}';
            assert(false);
        }
    }
    assert(!crate::text::has_nul("ID"@)) by {
        if crate::text::has_nul("ID"@) {
            let k = choose|k: int| 0 <= k < "ID"@.len() && "ID"@[k] == '\u{0}';
            assert(false);
        }
    }
    assert(!crate::text::has_nul("OnBoot"@)) by {
        if crate::text::has_nul("OnBoot"@) {
            let k = choose|k: int| 0 <= k < "OnBoot"@.len() && "OnBoot"@[k] == '\u{0}';
            assert(false);
        }
    }
    assert(!crate::text::has_nul(seq![' '])) by {
        if crate::text::has_nul(seq![' ']) {
            let k = choose|k: int| 0 <= k < seq![' '].len() && seq![' '][k] == '\u{0}';
            assert(false);
        }
    }
    assert(!crate::text::has_nul(seq![':', ' '])) by {
        if crate::text::has_nul(seq![':', ' ']) {
            let k = choose|k: int| 0 <= k < seq![':', ' '].len() && seq![':', ' '][k] == '\u{0}';
            assert(false);
        }
    }
    assert(!crate::text::has_nul(crate::codec::crlf())) by {
        if crate::text::has_nul(crate::codec::crlf()) {
            let k = choose|k: int|
                0 <= k < crate::codec::crlf().len() && crate::codec::crlf()[k] == '\u{0}';
            assert(false);
        }
    }
    assert(!crate::text::has_nul(Seq::<char>::empty())) by {
        if crate::text::has_nul(Seq::<char>::empty()) {
            let k = choose|k: int|
                0 <= k < Seq::<char>::empty().len() && Seq::<char>::empty()[k] == '\u{0}';
            assert(false);
        }
    }
    lemma_no_nul_concat("ID"@, seq![':', ' ']);
    lemma_no_nul_concat("ID"@ + seq![':', ' '], "OnBoot"@);
    lemma_no_nul_concat("ID"@ + seq![':', ' '] + "OnBoot"@, crate::codec::crlf());
    assert(!crate::text::has_nul(line));
    lemma_no_nul_concat(Seq::<char>::empty(), line);
    assert(!crate::text::has_nul(crate::codec::header_lines(hs)));
    let part1 = "GET"@ + seq![' '];
    let part2 = part1 + "SHIORI/3.0"@;
    let part3 = part2 + seq![' '];
    let part4 = part3 + "SHIORI/3.0"@;
    let part5 = part4 + crate::codec::crlf();
    let part6 = part5 + crate::codec::header_lines(hs);
    let part7 = part6 + crate::codec::crlf();
    lemma_no_nul_concat("GET"@, seq![' ']);
    lemma_no_nul_concat(part1, "SHIORI/3.0"@);
    lemma_no_nul_concat(part2, seq![' ']);
    lemma_no_nul_concat(part3, "SHIORI/3.0"@);
    lemma_no_nul_concat(part4, crate::codec::crlf());
    lemma_no_nul_concat(part5, crate::codec::header_lines(hs));
    lemma_no_nul_concat(part6, crate::codec::crlf());
    assert(boot_request() == part7);
}

/// Loading a bundle while another is active succeeds whenever the
/// boundary cooperates, because the previous engine is finalized first:
/// the initialize step always starts from the idle state, and the boot
/// exchange completes the order finalize, initialize, load, request.
pub proof fn lemma_load_finalizes_previous(m: ManagerView, name: Seq<char>, out: LoadOutcomesView)
    requires
        m.wf(),
        reg_get_opt(m.ghosts, name) is Some,
        reg_get_opt(m.ghosts, name)->Some_0.shiori_type is YAYA,
        !crate::text::has_nul(
            seq_join(reg_get_opt(m.ghosts, name)->Some_0.path, seq!['/']),
        ),
        out.init_status == 1,
        out.set_dir_status == 1,
        out.load_status == 1,
        out.boot_reply is Some,
    ensures
        spec_load_ghost(m, name, out).1 is None,
        spec_load_ghost(m, name, out).0.current == Some(name),
        spec_load_ghost(m, name, out).0.engine.lifecycle is Active,
        spec_load_ghost(m, name, out).0.engine.ghost_path == Some(
            seq_join(reg_get_opt(m.ghosts, name)->Some_0.path, seq!['/']),
        ),
{
    lemma_boot_request_no_nul();
}

} // verus!
