//! The engine lifecycle state machine across the foreign boundary.
//!
//! Exactly one engine is loaded process-wide.  The native entry points
//! (initialize, set-directory, load, unload, request, finalize) are invoked
//! by the embedding program, which hands their status codes and buffers to
//! the functions here; the functions decide every state transition and are
//! verified against the transition specifications below.  Status code `1`
//! means success; any other value is surfaced as a boundary failure.

use vstd::prelude::*;

use crate::errors::{err_view, ErrorView, ShioriError};
use crate::foreign::utf8_lossy_of;
use crate::foreign::decode_utf8_lossy;
use crate::text::{contains_nul, has_nul};
use crate::detect::has_name;
use crate::detect::list_has_name;

verus! {

/// The response-engine implementation a loaded bundle runs on.
#[allow(non_camel_case_types)]
#[derive(Debug, Clone, Copy, PartialEq, Eq, Structural)]
pub enum EngineType {
    YAYA,
    SATORIYA,
    NoEngine,
}

/// Where the single process-wide engine stands in its life.
#[derive(Debug, Clone, Copy, PartialEq, Eq, Structural)]
pub enum EngineLifecycleState {
    /// No engine: the startup state, re-entered after finalize.
    Idle,
    /// The boundary's initialize entry point succeeded; load has not.
    Initializing,
    /// The boundary's load entry point succeeded; boot not yet exchanged.
    Loaded,
    /// The synthetic boot request completed; requests are legal.
    Active,
    /// Transient teardown; never observed between calls.
    Finalizing,
}

/// The engine state: which family is initialized, where it stands, and the
/// bundle root it was initialized with.
pub struct ShioriState {
    pub engine: EngineType,
    pub lifecycle: EngineLifecycleState,
    pub ghost_path: Option<String>,
}

/// A `ShioriState`, seen mathematically.
pub ghost struct StateView {
    pub engine: EngineType,
    pub lifecycle: EngineLifecycleState,
    pub ghost_path: Option<Seq<char>>,
}

impl View for ShioriState {
    type V = StateView;

    open spec fn view(&self) -> StateView {
        StateView {
            engine: self.engine,
            lifecycle: self.lifecycle,
            ghost_path: match self.ghost_path {
                Some(ref p) => Some(p@),
                None => None,
            },
        }
    }
}

impl StateView {
    /// Well-formedness between calls: the transient teardown state is never
    /// retained; an engine is present exactly outside `Idle`; only the
    /// family-A implementation can actually be initialized.
    pub open spec fn wf(self) -> bool {
        &&& !(self.lifecycle is Finalizing)
        &&& !(self.engine is SATORIYA)
        &&& ((self.lifecycle is Idle) <==> (self.engine is NoEngine))
        &&& ((self.lifecycle is Idle) <==> (self.ghost_path is None))
    }
}

/// The state with no engine: startup, and after every finalize.
pub open spec fn idle_state() -> StateView {
    StateView { engine: EngineType::NoEngine, lifecycle: EngineLifecycleState::Idle, ghost_path: None }
}

/// Transition for the family-A initialize sequence: idempotent when this
/// family is already initialized; otherwise the bundle root must be
/// boundary-encodable and both the initialize and set-directory entry
/// points must report success, else the state falls back to `Idle` with the
/// failure surfaced and nothing retained.
pub open spec fn spec_yaya_initialize(s: StateView, dir: Seq<char>, st1: int, st2: int) -> (
    StateView,
    Option<ErrorView>,
) {
    if !(s.lifecycle is Idle) && s.engine is YAYA {
        (s, None)
    } else if has_nul(dir) {
        (idle_state(), Some(ErrorView::EncodingFailure))
    } else if st1 != 1 {
        (idle_state(), Some(ErrorView::BoundaryFailure(st1)))
    } else if st2 != 1 {
        (idle_state(), Some(ErrorView::BoundaryFailure(st2)))
    } else {
        (
            StateView {
                engine: EngineType::YAYA,
                lifecycle: EngineLifecycleState::Initializing,
                ghost_path: Some(dir),
            },
            None,
        )
    }
}

/// Transition for the boundary's load entry point: legal once family A is
/// initialized; success reaches `Loaded`, failure tears down to `Idle`.
pub open spec fn spec_yaya_load(s: StateView, st: int) -> (StateView, Option<ErrorView>) {
    if !(s.engine is YAYA) || s.lifecycle is Idle {
        (s, Some(ErrorView::NotInitialized))
    } else if st == 1 {
        (StateView { lifecycle: EngineLifecycleState::Loaded, ..s }, None)
    } else {
        (idle_state(), Some(ErrorView::BoundaryFailure(st)))
    }
}

/// Transition for the boundary's unload entry point: the engine stays
/// initialized but returns to its pre-load stage; a non-success status is
/// surfaced.
pub open spec fn spec_yaya_unload(s: StateView, st: int) -> (StateView, Option<ErrorView>) {
    if !(s.engine is YAYA) || s.lifecycle is Idle {
        (s, Some(ErrorView::NotInitialized))
    } else if st == 1 {
        (StateView { lifecycle: EngineLifecycleState::Initializing, ..s }, None)
    } else {
        (
            StateView { lifecycle: EngineLifecycleState::Initializing, ..s },
            Some(ErrorView::BoundaryFailure(st)),
        )
    }
}

/// Transition for one request exchange: legal in `Loaded` (the synthetic
/// boot) and in `Active`; the request text must be boundary-encodable; a
/// null reply buffer is a failure; a reply moves the engine to (or keeps it
/// in) `Active`.
pub open spec fn spec_yaya_request(
    s: StateView,
    input: Seq<char>,
    reply: Option<Seq<u8>>,
) -> (StateView, Option<ErrorView>) {
    if !(s.engine is YAYA) || !(s.lifecycle is Loaded || s.lifecycle is Active) {
        (s, Some(ErrorView::NotInitialized))
    } else if has_nul(input) {
        (s, Some(ErrorView::EncodingFailure))
    } else {
        match reply {
            None => (s, Some(ErrorView::NullResponse)),
            Some(_) => (StateView { lifecycle: EngineLifecycleState::Active, ..s }, None),
        }
    }
}

/// Transition for finalize: best-effort teardown that always reaches
/// `Idle`, whatever the prior state.
pub open spec fn spec_finalize(s: StateView) -> StateView {
    idle_state()
}

/// An optional reply buffer, seen mathematically.
pub open spec fn opt_bytes_view(o: Option<Vec<u8>>) -> Option<Seq<u8>> {
    match o {
        Some(b) => Some(b@),
        None => None,
    }
}

/// The family-A engine: decision logic for each boundary entry point.
/// The embedding program performs the native call and passes its status in.
#[allow(non_camel_case_types)]
pub struct YayaEngine;

impl YayaEngine {
    /// Applies the initialize + set-directory outcome.  `init_status` and
    /// `set_dir_status` are what the two native entry points returned; when
    /// an earlier check already fails, they are never consulted, matching a
    /// driver that never made the calls.
    pub fn initialize(
        state: &mut ShioriState,
        ghost_dir: &str,
        init_status: i32,
        set_dir_status: i32,
    ) -> (r: Result<(), ShioriError>)
        requires
            old(state)@.wf(),
        ensures
            final(state)@ == spec_yaya_initialize(
                old(state)@,
                ghost_dir@,
                init_status as int,
                set_dir_status as int,
            ).0,
            err_view(r) == spec_yaya_initialize(
                old(state)@,
                ghost_dir@,
                init_status as int,
                set_dir_status as int,
            ).1,
            final(state)@.wf(),
    {
        match state.lifecycle {
            EngineLifecycleState::Idle => {},
            _ => {
                match state.engine {
                    EngineType::YAYA => {
                        return Ok(());
                    },
                    _ => {},
                }
            },
        }
        Self::reset(state);
        if contains_nul(ghost_dir) {
            return Err(ShioriError::EncodingFailure);
        }
        if init_status != 1 {
            return Err(ShioriError::BoundaryFailure(init_status));
        }
        if set_dir_status != 1 {
            return Err(ShioriError::BoundaryFailure(set_dir_status));
        }
        state.engine = EngineType::YAYA;
        state.lifecycle = EngineLifecycleState::Initializing;
        state.ghost_path = Some(ghost_dir.to_owned());
        Ok(())
    }

    /// Applies the load entry point's status.
    pub fn load(state: &mut ShioriState, load_status: i32) -> (r: Result<i32, ShioriError>)
        requires
            old(state)@.wf(),
        ensures
            final(state)@ == spec_yaya_load(old(state)@, load_status as int).0,
            err_view(r) == spec_yaya_load(old(state)@, load_status as int).1,
            r is Ok ==> r->Ok_0 == load_status,
            final(state)@.wf(),
    {
        match state.engine {
            EngineType::YAYA => {},
            _ => {
                return Err(ShioriError::NotInitialized);
            },
        }
        match state.lifecycle {
            EngineLifecycleState::Idle => {
                return Err(ShioriError::NotInitialized);
            },
            _ => {},
        }
        if load_status == 1 {
            state.lifecycle = EngineLifecycleState::Loaded;
            Ok(load_status)
        } else {
            Self::reset(state);
            Err(ShioriError::BoundaryFailure(load_status))
        }
    }

    /// Applies the unload entry point's status.
    pub fn unload(state: &mut ShioriState, unload_status: i32) -> (r: Result<i32, ShioriError>)
        requires
            old(state)@.wf(),
        ensures
            final(state)@ == spec_yaya_unload(old(state)@, unload_status as int).0,
            err_view(r) == spec_yaya_unload(old(state)@, unload_status as int).1,
            r is Ok ==> r->Ok_0 == unload_status,
            final(state)@.wf(),
    {
        match state.engine {
            EngineType::YAYA => {},
            _ => {
                return Err(ShioriError::NotInitialized);
            },
        }
        match state.lifecycle {
            EngineLifecycleState::Idle => {
                return Err(ShioriError::NotInitialized);
            },
            _ => {},
        }
        state.lifecycle = EngineLifecycleState::Initializing;
        if unload_status == 1 {
            Ok(unload_status)
        } else {
            Err(ShioriError::BoundaryFailure(unload_status))
        }
    }

    /// Applies one request exchange: `reply` is the buffer the native
    /// request entry point returned, `None` for a null pointer.  The reply
    /// bytes are copied into an owned string immediately, read as UTF-8
    /// with lossy substitution.
    pub fn request(state: &mut ShioriState, input: &str, reply: Option<Vec<u8>>) -> (r: Result<
        String,
        ShioriError,
    >)
        requires
            old(state)@.wf(),
        ensures
            final(state)@ == spec_yaya_request(old(state)@, input@, opt_bytes_view(reply)).0,
            err_view(r) == spec_yaya_request(old(state)@, input@, opt_bytes_view(reply)).1,
            r is Ok ==> reply is Some && r->Ok_0@ == utf8_lossy_of(reply->Some_0@),
            final(state)@.wf(),
    {
        match state.engine {
            EngineType::YAYA => {},
            _ => {
                return Err(ShioriError::NotInitialized);
            },
        }
        match state.lifecycle {
            EngineLifecycleState::Loaded => {},
            EngineLifecycleState::Active => {},
            _ => {
                return Err(ShioriError::NotInitialized);
            },
        }
        if contains_nul(input) {
            return Err(ShioriError::EncodingFailure);
        }
        match reply {
            None => Err(ShioriError::NullResponse),
            Some(bytes) => {
                state.lifecycle = EngineLifecycleState::Active;
                Ok(decode_utf8_lossy(bytes.as_slice()))
            },
        }
    }

    /// Tears the engine down, best-effort: always reaches `Idle`.
    pub fn finalize(state: &mut ShioriState) -> (r: Result<(), ShioriError>)
        ensures
            final(state)@ == spec_finalize(old(state)@),
            r is Ok,
            final(state)@.wf(),
    {
        Self::reset(state);
        Ok(())
    }

    fn reset(state: &mut ShioriState)
        ensures
            final(state)@ == idle_state(),
    {
        state.engine = EngineType::NoEngine;
        state.lifecycle = EngineLifecycleState::Idle;
        state.ghost_path = None;
    }
}

/// The family-B engine: recognized but without a working implementation;
/// every operation reports a fixed "not supported" failure.
#[allow(non_camel_case_types)]
pub struct SatoriyaEngine;

impl SatoriyaEngine {
    pub fn initialize(_ghost_dir: &str) -> (r: Result<(), ShioriError>)
        ensures
            err_view(r) == Some(ErrorView::NotSupported),
    {
        Err(ShioriError::NotSupported)
    }

    pub fn load() -> (r: Result<i32, ShioriError>)
        ensures
            err_view(r) == Some(ErrorView::NotSupported),
    {
        Err(ShioriError::NotSupported)
    }

    pub fn unload() -> (r: Result<i32, ShioriError>)
        ensures
            err_view(r) == Some(ErrorView::NotSupported),
    {
        Err(ShioriError::NotSupported)
    }

    pub fn request(_input: &str) -> (r: Result<String, ShioriError>)
        ensures
            err_view(r) == Some(ErrorView::NotSupported),
    {
        Err(ShioriError::NotSupported)
    }
}

/// Which marker files select family A at initialize time.
pub open spec fn auto_selects_yaya(markers: Seq<Seq<char>>) -> bool {
    has_name(markers, "yaya.txt"@) || has_name(markers, "aya.dll"@) || has_name(
        markers,
        "yaya.dll"@,
    )
}

/// Which marker files reveal family B at initialize time.
pub open spec fn auto_selects_satoriya(markers: Seq<Seq<char>>) -> bool {
    has_name(markers, "satori.dll"@)
}

/// Transition for automatic engine selection and initialization: family-A
/// markers start the family-A initialize sequence; family-B markers are
/// recognized but unsupported; anything else is undetectable.  Failures
/// leave the state as it was or at `Idle`, never partly initialized.
pub open spec fn spec_initialize_auto(
    s: StateView,
    dir: Seq<char>,
    markers: Seq<Seq<char>>,
    st1: int,
    st2: int,
) -> (StateView, Option<ErrorView>) {
    if auto_selects_yaya(markers) {
        spec_yaya_initialize(s, dir, st1, st2)
    } else if auto_selects_satoriya(markers) {
        (s, Some(ErrorView::NotSupported))
    } else {
        (s, Some(ErrorView::NoEngineDetected))
    }
}

/// The one process-wide engine, behind a single capability interface; the
/// family in use is fixed at initialize time.  Owned explicitly (not an
/// ambient global) so that independent instances can exist side by side;
/// the embedding program serializes all calls under one lock.
pub struct IntegratedShiori {
    pub state: ShioriState,
}

impl View for IntegratedShiori {
    type V = StateView;

    open spec fn view(&self) -> StateView {
        self.state@
    }
}

impl IntegratedShiori {
    /// A fresh, idle engine slot.
    pub fn new() -> (r: Self)
        ensures
            r@ == idle_state(),
            r@.wf(),
    {
        IntegratedShiori {
            state: ShioriState {
                engine: EngineType::NoEngine,
                lifecycle: EngineLifecycleState::Idle,
                ghost_path: None,
            },
        }
    }

    /// Detects the engine family from the marker files at the bundle root
    /// and runs the family's initialize sequence.  `markers` are the file
    /// names present at the bundle root; the statuses are what the native
    /// initialize and set-directory calls returned when made.
    pub fn initialize_auto(
        &mut self,
        ghost_dir: &str,
        markers: &Vec<String>,
        init_status: i32,
        set_dir_status: i32,
    ) -> (r: Result<EngineType, ShioriError>)
        requires
            old(self)@.wf(),
        ensures
            final(self)@ == spec_initialize_auto(
                old(self)@,
                ghost_dir@,
                markers@.map_values(|n: String| n@),
                init_status as int,
                set_dir_status as int,
            ).0,
            err_view(r) == spec_initialize_auto(
                old(self)@,
                ghost_dir@,
                markers@.map_values(|n: String| n@),
                init_status as int,
                set_dir_status as int,
            ).1,
            r is Ok ==> r->Ok_0 == EngineType::YAYA,
            final(self)@.wf(),
    {
        if list_has_name(markers, "yaya.txt") || list_has_name(markers, "aya.dll")
            || list_has_name(markers, "yaya.dll") {
            YayaEngine::initialize(&mut self.state, ghost_dir, init_status, set_dir_status)?;
            Ok(EngineType::YAYA)
        } else if list_has_name(markers, "satori.dll") {
            Err(ShioriError::NotSupported)
        } else {
            Err(ShioriError::NoEngineDetected)
        }
    }

    /// The family currently initialized, `NoEngine` when idle.
    pub fn current_engine(&self) -> (r: Result<EngineType, ShioriError>)
        ensures
            r is Ok && r->Ok_0 == self@.engine,
    {
        Ok(self.state.engine)
    }

    /// One request exchange, dispatched to the engine in use.
    pub fn request(&mut self, input: &str, reply: Option<Vec<u8>>) -> (r: Result<
        String,
        ShioriError,
    >)
        requires
            old(self)@.wf(),
        ensures
            final(self)@ == spec_yaya_request(old(self)@, input@, opt_bytes_view(reply)).0,
            err_view(r) == spec_yaya_request(old(self)@, input@, opt_bytes_view(reply)).1,
            r is Ok ==> reply is Some && r->Ok_0@ == utf8_lossy_of(reply->Some_0@),
            final(self)@.wf(),
    {
        match self.state.engine {
            EngineType::YAYA => YayaEngine::request(&mut self.state, input, reply),
            EngineType::SATORIYA => SatoriyaEngine::request(input),
            EngineType::NoEngine => Err(ShioriError::NotInitialized),
        }
    }

    /// The load entry point's outcome, dispatched to the engine in use.
    pub fn load(&mut self, load_status: i32) -> (r: Result<i32, ShioriError>)
        requires
            old(self)@.wf(),
        ensures
            final(self)@ == spec_yaya_load(old(self)@, load_status as int).0,
            err_view(r) == spec_yaya_load(old(self)@, load_status as int).1,
            r is Ok ==> r->Ok_0 == load_status,
            final(self)@.wf(),
    {
        match self.state.engine {
            EngineType::YAYA => YayaEngine::load(&mut self.state, load_status),
            EngineType::SATORIYA => SatoriyaEngine::load(),
            EngineType::NoEngine => Err(ShioriError::NotInitialized),
        }
    }

    /// The unload entry point's outcome, dispatched to the engine in use.
    pub fn unload(&mut self, unload_status: i32) -> (r: Result<i32, ShioriError>)
        requires
            old(self)@.wf(),
        ensures
            final(self)@ == spec_yaya_unload(old(self)@, unload_status as int).0,
            err_view(r) == spec_yaya_unload(old(self)@, unload_status as int).1,
            r is Ok ==> r->Ok_0 == unload_status,
            final(self)@.wf(),
    {
        match self.state.engine {
            EngineType::YAYA => YayaEngine::unload(&mut self.state, unload_status),
            EngineType::SATORIYA => SatoriyaEngine::unload(),
            EngineType::NoEngine => Err(ShioriError::NotInitialized),
        }
    }

    /// Best-effort teardown of whatever is initialized: always reaches
    /// `Idle` and never fails, so a stuck engine cannot block a new load.
    pub fn finalize(&mut self) -> (r: Result<(), ShioriError>)
        requires
            old(self)@.wf(),
        ensures
            final(self)@ == spec_finalize(old(self)@),
            r is Ok,
            final(self)@.wf(),
    {
        YayaEngine::finalize(&mut self.state)
    }
}

/// A request or event is rejected whenever the lifecycle state is `Idle`:
/// the outcome is the illegal-state failure and an unchanged state, for
/// every possible reply buffer — so no driver consulting this machine has
/// any reason to touch the boundary.
pub proof fn lemma_request_rejected_when_idle(
    s: StateView,
    input: Seq<char>,
    reply: Option<Seq<u8>>,
)
    requires
        s.wf(),
        s.lifecycle is Idle,
    ensures
        spec_yaya_request(s, input, reply) == (s, Some(ErrorView::NotInitialized)),
{
}

} // verus!
