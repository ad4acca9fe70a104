//! The session state machine: open, configure, derive parameters, scan,
//! stream, terminate. The transport that talks to the device is a
//! collaborator outside this library; every transport response enters these
//! functions as an explicit argument, and the functions decide, for each
//! session state and response, the next state and the outcome reported to
//! the caller.
use vstd::prelude::*;

use crate::catalog::OptionCatalog;
use crate::catalog::OptionDescriptor;
use crate::errors::ScanError;
use crate::params::ScanParameters;
use crate::value::OptionValue;

verus! {

/// The lifecycle position of a session.
#[derive(Clone, Copy, Debug, PartialEq, Eq, Structural)]
pub enum SessionState {
    /// Never opened.
    Idle,
    /// Holding a device handle; configuring may proceed.
    Opened,
    /// Holding a device handle and an advisory parameter set.
    ParametersKnown,
    /// A scan is running; reads are legal.
    Scanning,
    /// The scan reported end-of-data; further reads keep reporting it.
    Draining,
    /// A fatal transport failure absorbed the session; only cancel and
    /// close remain useful.
    Error,
    /// Explicitly closed; the session is unusable.
    Closed,
}

/// What a successful option application invalidates: the fetched catalog,
/// the derived parameters, or both.
#[derive(Clone, Copy, Debug, PartialEq, Eq, Structural)]
pub struct ReloadSignal {
    pub options: bool,
    pub parameters: bool,
}

impl ReloadSignal {
    /// Returns the signal that invalidates nothing.
    pub fn none() -> (r: ReloadSignal)
        ensures
            r == (ReloadSignal { options: false, parameters: false }),
    {
        ReloadSignal { options: false, parameters: false }
    }
}

/// What the transport reported for one chunked read.
#[derive(Clone, Copy, Debug, PartialEq, Eq, Structural)]
pub enum ChunkResult {
    /// `byteCount` bytes were produced; zero is a valid, non-terminal
    /// outcome and must not be read as end-of-data.
    Data(usize),
    /// No more bytes will ever be produced for this scan.
    EndOfData,
    /// A fatal transport failure; terminal for the session.
    Failure(ScanError),
}

/// What a legal read reports to the caller.
#[derive(Clone, Copy, Debug, PartialEq, Eq, Structural)]
pub enum ChunkOutcome {
    Data(usize),
    EndOfData,
}

/// How one configuration request ended: applied to a present descriptor,
/// or skipped because the device does not expose the name.
#[derive(Clone, Copy, Debug, PartialEq, Eq, Structural)]
pub enum ApplyOutcome {
    Applied,
    Skipped,
}

/// One caller-supplied configuration request: apply `value` to the option
/// called `name` if the device exposes it.
#[derive(Clone, Debug)]
pub struct OptionRequest {
    pub name: String,
    pub value: OptionValue,
}

/// The mathematical value of a [`Session`].
pub struct SessionView {
    pub state: SessionState,
    pub catalog: Seq<OptionDescriptor>,
    pub stored: Seq<Option<OptionValue>>,
    pub params: Option<ScanParameters>,
    pub scan_bytes: int,
}

/// Every descriptor of `opts` is well formed and no two share a name.
pub open spec fn catalog_seq_wf(opts: Seq<OptionDescriptor>) -> bool {
    &&& forall|i: int| 0 <= i < opts.len() ==> (#[trigger] opts[i]).wf()
    &&& forall|i: int, j: int|
        0 <= i < j < opts.len() ==> (#[trigger] opts[i]).name@ != (#[trigger] opts[j]).name@
}

/// Whether some descriptor of `opts` bears `name`.
pub open spec fn catalog_seq_has(opts: Seq<OptionDescriptor>, name: Seq<char>) -> bool {
    exists|i: int| 0 <= i < opts.len() && (#[trigger] opts[i]).name@ == name
}

/// The first index at or after `i` whose descriptor bears `name`.
pub open spec fn catalog_find_from(opts: Seq<OptionDescriptor>, name: Seq<char>, i: int) -> Option<
    int,
>
    decreases opts.len() - i,
{
    if 0 <= i < opts.len() {
        if opts[i].name@ == name {
            Some(i)
        } else {
            catalog_find_from(opts, name, i + 1)
        }
    } else {
        None
    }
}

/// The first index whose descriptor bears `name`.
pub open spec fn catalog_find(opts: Seq<OptionDescriptor>, name: Seq<char>) -> Option<int> {
    catalog_find_from(opts, name, 0)
}

/// `catalog_find_from` returns the first match at or after `i`, and `None`
/// exactly when no descriptor from `i` on matches.
pub proof fn lemma_catalog_find_from(opts: Seq<OptionDescriptor>, name: Seq<char>, i: int)
    requires
        0 <= i <= opts.len(),
    ensures
        match catalog_find_from(opts, name, i) {
            Some(ix) => i <= ix < opts.len() && opts[ix].name@ == name && (forall|j: int|
                i <= j < ix ==> (#[trigger] opts[j]).name@ != name),
            None => forall|j: int| i <= j < opts.len() ==> (#[trigger] opts[j]).name@ != name,
        },
    decreases opts.len() - i,
{
    if i < opts.len() && opts[i].name@ != name {
        lemma_catalog_find_from(opts, name, i + 1);
    }
}

/// `catalog_find` returns the first match, and `None` exactly when the
/// name is absent from the catalog.
pub proof fn lemma_catalog_find(opts: Seq<OptionDescriptor>, name: Seq<char>)
    ensures
        match catalog_find(opts, name) {
            Some(ix) => 0 <= ix < opts.len() && opts[ix].name@ == name && (forall|j: int|
                0 <= j < ix ==> (#[trigger] opts[j]).name@ != name),
            None => !catalog_seq_has(opts, name),
        },
{
    lemma_catalog_find_from(opts, name, 0);
}

impl SessionView {
    /// The session invariant: a well-formed catalog, one stored slot per
    /// descriptor, stored tags that never drift from the declared kinds,
    /// parameters present in every state that promises them, and only
    /// well-formed parameters.
    pub open spec fn wf(&self) -> bool {
        &&& catalog_seq_wf(self.catalog)
        &&& self.stored.len() == self.catalog.len()
        &&& forall|i: int|
            0 <= i < self.stored.len() ==> ((#[trigger] self.stored[i]) matches Some(v)
                ==> v.kind_spec() == self.catalog[i].kind)
        &&& ((self.state == SessionState::ParametersKnown || self.state == SessionState::Scanning
            || self.state == SessionState::Draining) ==> self.params is Some)
        &&& (self.params matches Some(p) ==> p.well_formed())
        &&& self.scan_bytes >= 0
    }

    /// Whether the session holds a device handle and is between scans, so
    /// that configuring and starting are legal.
    pub open spec fn configurable(&self) -> bool {
        self.state == SessionState::Opened || self.state == SessionState::ParametersKnown
    }
}

/// The error an operation that needs an open, non-scanning session reports
/// in each state where it is illegal.
pub open spec fn gate_error(st: SessionState) -> ScanError {
    match st {
        SessionState::Idle => ScanError::NotOpen,
        SessionState::Closed => ScanError::Closed,
        SessionState::Error => ScanError::NotOpen,
        _ => ScanError::NotReady,
    }
}

/// The view of a freshly created, never-opened session.
pub open spec fn initial_view() -> SessionView {
    SessionView {
        state: SessionState::Idle,
        catalog: Seq::empty(),
        stored: Seq::empty(),
        params: None,
        scan_bytes: 0,
    }
}

/// What `open` does: from `Idle`, adopt the transport's outcome — a fetched
/// catalog with no values applied yet, or the transport's error; from any
/// open state fail `AlreadyOpen`; after `close` fail `Closed`.
pub open spec fn spec_open(sv: SessionView, transport: Result<OptionCatalog, ScanError>) -> (
    SessionView,
    Result<(), ScanError>,
) {
    match sv.state {
        SessionState::Idle => match transport {
            Ok(cat) => (
                SessionView {
                    state: SessionState::Opened,
                    catalog: cat.opts@,
                    stored: Seq::new(cat.opts@.len(), |i: int| None),
                    params: None,
                    scan_bytes: 0,
                },
                Ok(()),
            ),
            Err(k) => (sv, Err(k)),
        },
        SessionState::Closed => (sv, Err(ScanError::Closed)),
        _ => (sv, Err(ScanError::AlreadyOpen)),
    }
}

/// What `set_option` does: gate on a configurable state, validate the value
/// against the descriptor at `ix`, store the coerced value, and honour the
/// transport's reload signal by discarding derived parameters when they are
/// invalidated. On any failure the session is unchanged.
pub open spec fn spec_set(sv: SessionView, ix: int, v: OptionValue, reload: ReloadSignal) -> (
    SessionView,
    Result<ReloadSignal, ScanError>,
) {
    if !sv.configurable() {
        (sv, Err(gate_error(sv.state)))
    } else if !(0 <= ix < sv.catalog.len()) {
        (sv, Err(ScanError::InvalidOption))
    } else {
        match sv.catalog[ix].validate_spec(v) {
            Err(e) => (sv, Err(e)),
            Ok(applied) => (
                SessionView {
                    state: if reload.parameters {
                        SessionState::Opened
                    } else {
                        sv.state
                    },
                    stored: sv.stored.update(ix, Some(applied)),
                    params: if reload.parameters {
                        None
                    } else {
                        sv.params
                    },
                    ..sv
                },
                Ok(reload),
            ),
        }
    }
}

/// What `apply_request` does: gate on a configurable state, skip a name the
/// catalog lacks as a normal outcome, and otherwise apply the value to the
/// named descriptor with no reload signalled.
pub open spec fn spec_apply(sv: SessionView, req: OptionRequest) -> (
    SessionView,
    Result<ApplyOutcome, ScanError>,
) {
    if !sv.configurable() {
        (sv, Err(gate_error(sv.state)))
    } else {
        match catalog_find(sv.catalog, req.name@) {
            None => (sv, Ok(ApplyOutcome::Skipped)),
            Some(ix) => {
                let (sv2, r) = spec_set(
                    sv,
                    ix,
                    req.value,
                    ReloadSignal { options: false, parameters: false },
                );
                match r {
                    Ok(_) => (sv2, Ok(ApplyOutcome::Applied)),
                    Err(e) => (sv2, Err(e)),
                }
            },
        }
    }
}

/// What `apply_all` does: apply the requests in order, skipping absent
/// names, counting the applied ones, and stopping at the first failure of
/// a present option.
pub open spec fn spec_apply_all(sv: SessionView, reqs: Seq<OptionRequest>) -> (
    SessionView,
    Result<int, ScanError>,
)
    decreases reqs.len(),
{
    if reqs.len() == 0 {
        (sv, Ok(0))
    } else {
        let (sv1, r1) = spec_apply(sv, reqs[0]);
        match r1 {
            Err(k) => (sv1, Err(k)),
            Ok(outcome) => {
                let (sv2, r2) = spec_apply_all(sv1, reqs.drop_first());
                let add: int = if outcome == ApplyOutcome::Applied {
                    1
                } else {
                    0
                };
                match r2 {
                    Ok(n) => (sv2, Ok(n + add)),
                    Err(k) => (sv2, Err(k)),
                }
            },
        }
    }
}

/// Splitting a request list anywhere splits `spec_apply_all` into the run
/// over the first part followed, if it succeeded, by the run over the rest
/// from where the first part left off.
pub proof fn lemma_apply_all_concat(sv: SessionView, a: Seq<OptionRequest>, b: Seq<OptionRequest>)
    ensures
        ({
            let (sva, ra) = spec_apply_all(sv, a);
            spec_apply_all(sv, a + b) == (match ra {
                Err(k) => (sva, Err::<int, ScanError>(k)),
                Ok(n) => {
                    let (svb, rb) = spec_apply_all(sva, b);
                    (
                        svb,
                        match rb {
                            Ok(m) => Ok::<int, ScanError>(n + m),
                            Err(k) => Err::<int, ScanError>(k),
                        },
                    )
                },
            })
        }),
    decreases a.len(),
{
    if a.len() == 0 {
        assert(a + b =~= b);
    } else {
        assert((a + b)[0] == a[0]);
        assert((a + b).drop_first() =~= a.drop_first() + b);
        let (sv1, r1) = spec_apply(sv, a[0]);
        if r1 is Ok {
            lemma_apply_all_concat(sv1, a.drop_first(), b);
        }
    }
}

/// What `get_parameters` does: legal once the session is open; adopt the
/// transport's advisory parameters, or absorb its failure into `Error`.
pub open spec fn spec_get_parameters(
    sv: SessionView,
    transport: Result<ScanParameters, ScanError>,
) -> (SessionView, Result<ScanParameters, ScanError>) {
    match sv.state {
        SessionState::Idle => (sv, Err(ScanError::NotOpen)),
        SessionState::Closed => (sv, Err(ScanError::Closed)),
        SessionState::Error => (sv, Err(ScanError::NotOpen)),
        _ => match transport {
            Ok(p) => (
                SessionView {
                    state: if sv.state == SessionState::Opened {
                        SessionState::ParametersKnown
                    } else {
                        sv.state
                    },
                    params: Some(p),
                    ..sv
                },
                Ok(p),
            ),
            Err(k) => (SessionView { state: SessionState::Error, ..sv }, Err(k)),
        },
    }
}

/// What `start` does: legal from `Opened`, `ParametersKnown` or `Draining`;
/// fails `NotReady` while a scan is still running; adopts the transport's
/// now-authoritative parameters and begins counting the scan's bytes at
/// zero, or absorbs the transport's failure into `Error`.
pub open spec fn spec_start(sv: SessionView, transport: Result<ScanParameters, ScanError>) -> (
    SessionView,
    Result<ScanParameters, ScanError>,
) {
    match sv.state {
        SessionState::Idle => (sv, Err(ScanError::NotOpen)),
        SessionState::Closed => (sv, Err(ScanError::Closed)),
        SessionState::Error => (sv, Err(ScanError::NotOpen)),
        SessionState::Scanning => (sv, Err(ScanError::NotReady)),
        _ => match transport {
            Ok(p) => (
                SessionView {
                    state: SessionState::Scanning,
                    params: Some(p),
                    scan_bytes: 0,
                    ..sv
                },
                Ok(p),
            ),
            Err(k) => (SessionView { state: SessionState::Error, ..sv }, Err(k)),
        },
    }
}

/// What `read` does: legal only while scanning or draining. While scanning,
/// data — zero-length included — keeps the scan running and is counted;
/// end-of-data moves to `Draining`; a transport failure is terminal and
/// moves to `Error`. While draining, every read keeps reporting
/// end-of-data without consulting the transport.
pub open spec fn spec_read(sv: SessionView, event: ChunkResult) -> (
    SessionView,
    Result<ChunkOutcome, ScanError>,
) {
    match sv.state {
        SessionState::Idle => (sv, Err(ScanError::NotOpen)),
        SessionState::Closed => (sv, Err(ScanError::Closed)),
        SessionState::Error => (sv, Err(ScanError::NotOpen)),
        SessionState::Opened => (sv, Err(ScanError::NotReady)),
        SessionState::ParametersKnown => (sv, Err(ScanError::NotReady)),
        SessionState::Draining => (sv, Ok(ChunkOutcome::EndOfData)),
        SessionState::Scanning => match event {
            ChunkResult::Data(n) => (
                SessionView { scan_bytes: sv.scan_bytes + n, ..sv },
                Ok(ChunkOutcome::Data(n)),
            ),
            ChunkResult::EndOfData => (
                SessionView { state: SessionState::Draining, ..sv },
                Ok(ChunkOutcome::EndOfData),
            ),
            ChunkResult::Failure(k) => (SessionView { state: SessionState::Error, ..sv }, Err(k)),
        },
    }
}

/// What `cancel` does: a no-op before the session is opened or after it is
/// closed; from every other state it unconditionally returns to `Opened`,
/// discarding in-flight read state. It never fails.
pub open spec fn spec_cancel(sv: SessionView) -> SessionView {
    match sv.state {
        SessionState::Idle => sv,
        SessionState::Closed => sv,
        _ => SessionView { state: SessionState::Opened, scan_bytes: 0, ..sv },
    }
}

/// What `close` does: release the handle from any state; idempotent.
pub open spec fn spec_close(sv: SessionView) -> SessionView {
    SessionView { state: SessionState::Closed, ..sv }
}

/// A session against exactly one device: the lifecycle state, the fetched
/// catalog, the values applied so far, the derived parameters, and the byte
/// count of the current scan.
pub struct Session {
    pub state: SessionState,
    pub catalog: OptionCatalog,
    pub stored: Vec<Option<OptionValue>>,
    pub params: Option<ScanParameters>,
    pub scan_bytes: u64,
}

impl View for Session {
    type V = SessionView;

    open spec fn view(&self) -> SessionView {
        SessionView {
            state: self.state,
            catalog: self.catalog.opts@,
            stored: self.stored@,
            params: self.params,
            scan_bytes: self.scan_bytes as int,
        }
    }
}

impl Session {
    /// The session invariant; see [`SessionView::wf`].
    pub open spec fn wf(&self) -> bool {
        self@.wf()
    }

    /// Returns a fresh, never-opened session.
    pub fn new() -> (s: Session)
        ensures
            s@ == initial_view(),
            s.wf(),
    {
        let s = Session {
            state: SessionState::Idle,
            catalog: OptionCatalog::new(),
            stored: Vec::new(),
            params: None,
            scan_bytes: 0,
        };
        proof {
            assert(s@.catalog =~= initial_view().catalog);
            assert(s@.stored =~= initial_view().stored);
        }
        s
    }

    /// Returns the session's lifecycle state.
    pub fn current_state(&self) -> (st: SessionState)
        ensures
            st == self@.state,
    {
        self.state
    }

    /// Returns the parameters last adopted, if any.
    pub fn parameters(&self) -> (p: Option<ScanParameters>)
        ensures
            p == self@.params,
    {
        self.params
    }

    /// Returns the bytes counted for the current scan.
    pub fn total_scan_bytes(&self) -> (n: u64)
        ensures
            n == self@.scan_bytes,
    {
        self.scan_bytes
    }

    /// Returns the stored (actually-applied) value of the option at `ix`,
    /// or `None` if none was ever applied.
    pub fn stored_value(&self, ix: usize) -> (v: &Option<OptionValue>)
        requires
            ix < self@.stored.len(),
        ensures
            *v == self@.stored[ix as int],
    {
        &self.stored[ix]
    }

    /// Returns the catalog fetched when the session was opened.
    pub fn catalog(&self) -> (c: &OptionCatalog)
        ensures
            c.opts@ == self@.catalog,
    {
        &self.catalog
    }

    /// Opens the session: adopts the transport's fetched catalog, or
    /// reports why it could not. See [`spec_open`].
    pub fn open(&mut self, transport: Result<OptionCatalog, ScanError>) -> (r: Result<
        (),
        ScanError,
    >)
        requires
            old(self).wf(),
            (transport matches Ok(c) ==> c.wf()),
        ensures
            final(self).wf(),
            (final(self)@, r) == spec_open(old(self)@, transport),
    {
        match self.state {
            SessionState::Idle => match transport {
                Ok(cat) => {
                    let n = cat.len();
                    let mut stored: Vec<Option<OptionValue>> = Vec::new();
                    let mut i: usize = 0;
                    while i < n
                        invariant
                            i <= n,
                            stored@.len() == i,
                            forall|j: int| 0 <= j < i ==> stored@[j] is None,
                        decreases n - i,
                    {
                        stored.push(None);
                        i = i + 1;
                    }
                    proof {
                        assert(stored@ =~= Seq::new(cat.opts@.len(), |k: int| None));
                    }
                    self.state = SessionState::Opened;
                    self.catalog = cat;
                    self.stored = stored;
                    self.params = None;
                    self.scan_bytes = 0;
                    Ok(())
                },
                Err(k) => Err(k),
            },
            SessionState::Closed => Err(ScanError::Closed),
            _ => Err(ScanError::AlreadyOpen),
        }
    }

    /// Applies `value` to the descriptor at `ix`, after validating its tag,
    /// constraint and capability flags, and honours the reload signal the
    /// transport reported. On failure the session — in particular the
    /// stored value for that descriptor — is unchanged. See [`spec_set`].
    pub fn set_option(&mut self, ix: usize, value: OptionValue, reload: ReloadSignal) -> (r: Result<
        ReloadSignal,
        ScanError,
    >)
        requires
            old(self).wf(),
        ensures
            final(self).wf(),
            (final(self)@, r) == spec_set(old(self)@, ix as int, value, reload),
    {
        match self.state {
            SessionState::Opened | SessionState::ParametersKnown => {},
            SessionState::Idle => {
                return Err(ScanError::NotOpen);
            },
            SessionState::Closed => {
                return Err(ScanError::Closed);
            },
            SessionState::Error => {
                return Err(ScanError::NotOpen);
            },
            _ => {
                return Err(ScanError::NotReady);
            },
        }
        if ix >= self.catalog.len() {
            return Err(ScanError::InvalidOption);
        }
        let applied = match self.catalog.get(ix).validate(value) {
            Ok(applied) => applied,
            Err(e) => {
                return Err(e);
            },
        };
        self.stored.set(ix, Some(applied));
        if reload.parameters {
            self.params = None;
            self.state = SessionState::Opened;
        }
        Ok(reload)
    }

    /// Applies one caller-supplied request: a name the catalog lacks is
    /// skipped as a normal outcome, a present one is validated and applied
    /// with no reload signalled. See [`spec_apply`].
    pub fn apply_request(&mut self, req: &OptionRequest) -> (r: Result<ApplyOutcome, ScanError>)
        requires
            old(self).wf(),
        ensures
            final(self).wf(),
            (final(self)@, r) == spec_apply(old(self)@, *req),
    {
        match self.state {
            SessionState::Opened | SessionState::ParametersKnown => {},
            SessionState::Idle => {
                return Err(ScanError::NotOpen);
            },
            SessionState::Closed => {
                return Err(ScanError::Closed);
            },
            SessionState::Error => {
                return Err(ScanError::NotOpen);
            },
            _ => {
                return Err(ScanError::NotReady);
            },
        }
        match self.catalog.find_option(&req.name) {
            None => {
                proof {
                    lemma_catalog_find(self.catalog.opts@, req.name@);
                }
                Ok(ApplyOutcome::Skipped)
            },
            Some(ix) => {
                proof {
                    lemma_catalog_find(self.catalog.opts@, req.name@);
                }
                let value = req.value.duplicate();
                match self.set_option(ix, value, ReloadSignal::none()) {
                    Ok(_) => Ok(ApplyOutcome::Applied),
                    Err(e) => Err(e),
                }
            },
        }
    }

    /// Applies a declarative, ordered list of configuration requests in a
    /// single pass: names the catalog lacks are skipped silently, present
    /// ones are validated and applied, and the first failure of a present
    /// option stops the pass and is reported unrecovered. On success the
    /// count of requests actually applied is returned. See
    /// [`spec_apply_all`].
    pub fn apply_all(&mut self, requests: &Vec<OptionRequest>) -> (r: Result<usize, ScanError>)
        requires
            old(self).wf(),
        ensures
            final(self).wf(),
            ({
                let (sv2, rr) = spec_apply_all(old(self)@, requests@);
                final(self)@ == sv2 && (match (r, rr) {
                    (Ok(n), Ok(m)) => n == m,
                    (Err(a), Err(b)) => a == b,
                    _ => false,
                })
            }),
    {
        let ghost sv0 = self@;
        let mut count: usize = 0;
        let mut i: usize = 0;
        while i < requests.len()
            invariant
                self.wf(),
                sv0 == old(self)@,
                i <= requests@.len(),
                count <= i,
                spec_apply_all(sv0, requests@.take(i as int)) == (
                    self@,
                    Ok::<int, ScanError>(count as int),
                ),
            decreases requests@.len() - i,
        {
            let ghost pre = self@;
            match self.apply_request(&requests[i]) {
                Ok(outcome) => {
                    proof {
                        let x = requests@[i as int];
                        let s = seq![x];
                        assert(s[0] == x);
                        assert(s.drop_first() =~= Seq::<OptionRequest>::empty());
                        assert(spec_apply_all(self@, Seq::<OptionRequest>::empty()) == (
                            self@,
                            Ok::<int, ScanError>(0),
                        ));
                        let add: int = if outcome == ApplyOutcome::Applied {
                            1
                        } else {
                            0
                        };
                        assert(spec_apply_all(pre, s) == (self@, Ok::<int, ScanError>(add)));
                        lemma_apply_all_concat(sv0, requests@.take(i as int), s);
                        assert(requests@.take(i as int + 1) =~= requests@.take(i as int) + s);
                    }
                    if match outcome {
                        ApplyOutcome::Applied => true,
                        ApplyOutcome::Skipped => false,
                    } {
                        count = count + 1;
                    }
                    i = i + 1;
                },
                Err(e) => {
                    proof {
                        let x = requests@[i as int];
                        let rest = requests@.skip(i as int);
                        assert(rest[0] == x);
                        assert(spec_apply_all(pre, rest) == (self@, Err::<int, ScanError>(e)));
                        lemma_apply_all_concat(sv0, requests@.take(i as int), rest);
                        assert(requests@.take(i as int) + rest =~= requests@);
                    }
                    return Err(e);
                },
            }
        }
        proof {
            assert(requests@.take(requests@.len() as int) =~= requests@);
        }
        Ok(count)
    }

    /// Adopts the transport's advisory parameter set; legal once the
    /// session is open. See [`spec_get_parameters`].
    pub fn get_parameters(&mut self, transport: Result<ScanParameters, ScanError>) -> (r: Result<
        ScanParameters,
        ScanError,
    >)
        requires
            old(self).wf(),
            (transport matches Ok(p) ==> p.well_formed()),
        ensures
            final(self).wf(),
            (final(self)@, r) == spec_get_parameters(old(self)@, transport),
    {
        match self.state {
            SessionState::Idle => Err(ScanError::NotOpen),
            SessionState::Closed => Err(ScanError::Closed),
            SessionState::Error => Err(ScanError::NotOpen),
            _ => match transport {
                Ok(p) => {
                    if match self.state {
                        SessionState::Opened => true,
                        _ => false,
                    } {
                        self.state = SessionState::ParametersKnown;
                    }
                    self.params = Some(p);
                    Ok(p)
                },
                Err(k) => {
                    self.state = SessionState::Error;
                    Err(k)
                },
            },
        }
    }

    /// Starts a scan: adopts the transport's now-authoritative parameters
    /// and begins counting the scan's bytes at zero. Fails `NotReady` while
    /// a prior scan is still running. See [`spec_start`].
    pub fn start(&mut self, transport: Result<ScanParameters, ScanError>) -> (r: Result<
        ScanParameters,
        ScanError,
    >)
        requires
            old(self).wf(),
            (transport matches Ok(p) ==> p.well_formed()),
        ensures
            final(self).wf(),
            (final(self)@, r) == spec_start(old(self)@, transport),
    {
        match self.state {
            SessionState::Idle => Err(ScanError::NotOpen),
            SessionState::Closed => Err(ScanError::Closed),
            SessionState::Error => Err(ScanError::NotOpen),
            SessionState::Scanning => Err(ScanError::NotReady),
            _ => match transport {
                Ok(p) => {
                    self.state = SessionState::Scanning;
                    self.params = Some(p);
                    self.scan_bytes = 0;
                    Ok(p)
                },
                Err(k) => {
                    self.state = SessionState::Error;
                    Err(k)
                },
            },
        }
    }

    /// Accounts for one chunked read. Legal only while scanning or
    /// draining; a zero-length chunk is a valid, non-terminal outcome; a
    /// transport failure is terminal for the session. See [`spec_read`].
    pub fn read(&mut self, event: ChunkResult) -> (r: Result<ChunkOutcome, ScanError>)
        requires
            old(self).wf(),
            (event matches ChunkResult::Data(n) ==> old(self).scan_bytes + n <= u64::MAX),
        ensures
            final(self).wf(),
            (final(self)@, r) == spec_read(old(self)@, event),
    {
        match self.state {
            SessionState::Idle => Err(ScanError::NotOpen),
            SessionState::Closed => Err(ScanError::Closed),
            SessionState::Error => Err(ScanError::NotOpen),
            SessionState::Opened => Err(ScanError::NotReady),
            SessionState::ParametersKnown => Err(ScanError::NotReady),
            SessionState::Draining => Ok(ChunkOutcome::EndOfData),
            SessionState::Scanning => match event {
                ChunkResult::Data(n) => {
                    self.scan_bytes = self.scan_bytes + (n as u64);
                    Ok(ChunkOutcome::Data(n))
                },
                ChunkResult::EndOfData => {
                    self.state = SessionState::Draining;
                    Ok(ChunkOutcome::EndOfData)
                },
                ChunkResult::Failure(k) => {
                    self.state = SessionState::Error;
                    Err(k)
                },
            },
        }
    }

    /// Winds the session down to `Opened`, discarding any in-flight read
    /// state. Never fails; transport errors during cancellation are
    /// swallowed because the caller's goal — a clean state — is reached
    /// either way. See [`spec_cancel`].
    pub fn cancel(&mut self)
        requires
            old(self).wf(),
        ensures
            final(self).wf(),
            final(self)@ == spec_cancel(old(self)@),
    {
        match self.state {
            SessionState::Idle => {},
            SessionState::Closed => {},
            _ => {
                self.state = SessionState::Opened;
                self.scan_bytes = 0;
            },
        }
    }

    /// Releases the device handle from any state; idempotent. Every later
    /// operation on the session fails `Closed`. See [`spec_close`].
    pub fn close(&mut self)
        requires
            old(self).wf(),
        ensures
            final(self).wf(),
            final(self)@ == spec_close(old(self)@),
    {
        self.state = SessionState::Closed;
    }
}

/// For every descriptor name absent from the device's catalog, applying
/// that name during configuration is a no-op: the request is skipped
/// without error and the session is unchanged.
pub proof fn lemma_absent_option_noop(sv: SessionView, req: OptionRequest)
    requires
        sv.configurable(),
        !catalog_seq_has(sv.catalog, req.name@),
    ensures
        spec_apply(sv, req) == (sv, Ok::<ApplyOutcome, ScanError>(ApplyOutcome::Skipped)),
{
    lemma_catalog_find(sv.catalog, req.name@);
    if let Some(ix) = catalog_find(sv.catalog, req.name@) {
        assert(catalog_seq_has(sv.catalog, req.name@));
    }
}

/// Inserting a request whose name the catalog lacks anywhere into a
/// configuration pass changes nothing: the run over the list with the
/// absent request equals the run without it, state and count alike.
pub proof fn lemma_absent_option_run_unchanged(
    sv: SessionView,
    reqs: Seq<OptionRequest>,
    i: int,
    req: OptionRequest,
)
    requires
        sv.configurable(),
        !catalog_seq_has(sv.catalog, req.name@),
        0 <= i <= reqs.len(),
    ensures
        spec_apply_all(sv, reqs.insert(i, req)) == spec_apply_all(sv, reqs),
    decreases i,
{
    let ins = reqs.insert(i, req);
    if i == 0 {
        lemma_absent_option_noop(sv, req);
        assert(ins[0] == req);
        assert(ins.drop_first() =~= reqs);
    } else {
        assert(ins[0] == reqs[0]);
        let (sv1, r1) = spec_apply(sv, reqs[0]);
        if r1 is Ok {
            assert(sv1.catalog == sv.catalog);
            assert(sv1.configurable());
            assert(ins.drop_first() =~= reqs.drop_first().insert(i - 1, req));
            lemma_absent_option_run_unchanged(sv1, reqs.drop_first(), i - 1, req);
        }
    }
}

/// For every descriptor present in the catalog, applying a value whose tag
/// differs from the declared kind fails `TypeMismatch`, and the session —
/// in particular its stored value for that descriptor — is unchanged.
pub proof fn lemma_type_mismatch_rejected(
    sv: SessionView,
    ix: int,
    v: OptionValue,
    reload: ReloadSignal,
)
    requires
        sv.configurable(),
        0 <= ix < sv.catalog.len(),
        v.kind_spec() != sv.catalog[ix].kind,
    ensures
        spec_set(sv, ix, v, reload) == (
            sv,
            Err::<ReloadSignal, ScanError>(ScanError::TypeMismatch),
        ),
{
}

/// For every descriptor name the catalog exposes, applying a value whose
/// tag differs from the declared kind of every descriptor bearing that
/// name fails `TypeMismatch` and leaves the session — in particular its
/// stored value for that descriptor — unchanged.
pub proof fn lemma_present_tag_mismatch_rejected(sv: SessionView, req: OptionRequest)
    requires
        sv.configurable(),
        catalog_seq_has(sv.catalog, req.name@),
        forall|i: int|
            0 <= i < sv.catalog.len() && (#[trigger] sv.catalog[i]).name@ == req.name@
                ==> req.value.kind_spec() != sv.catalog[i].kind,
    ensures
        spec_apply(sv, req) == (sv, Err::<ApplyOutcome, ScanError>(ScanError::TypeMismatch)),
{
    lemma_catalog_find(sv.catalog, req.name@);
}

/// Starting before opening fails `NotOpen` and changes nothing.
pub proof fn lemma_start_before_open_fails(
    sv: SessionView,
    transport: Result<ScanParameters, ScanError>,
)
    requires
        sv.state == SessionState::Idle,
    ensures
        spec_start(sv, transport) == (sv, Err::<ScanParameters, ScanError>(ScanError::NotOpen)),
{
}

/// Reading before a scan was started fails `NotReady` and changes nothing.
pub proof fn lemma_read_before_start_fails(sv: SessionView, event: ChunkResult)
    requires
        sv.state == SessionState::Opened || sv.state == SessionState::ParametersKnown,
    ensures
        spec_read(sv, event) == (sv, Err::<ChunkOutcome, ScanError>(ScanError::NotReady)),
{
}

/// After end-of-data, every further read on the same scan keeps returning
/// `EndOfData` and leaves the session draining, whatever the transport
/// would have said — until a new start.
pub proof fn lemma_end_of_data_idempotent(sv: SessionView, event: ChunkResult)
    requires
        sv.state == SessionState::Scanning,
    ensures
        ({
            let (sv1, r1) = spec_read(sv, ChunkResult::EndOfData);
            let (sv2, r2) = spec_read(sv1, event);
            r1 == Ok::<ChunkOutcome, ScanError>(ChunkOutcome::EndOfData) && r2 == Ok::<
                ChunkOutcome,
                ScanError,
            >(ChunkOutcome::EndOfData) && sv1.state == SessionState::Draining && sv2 == sv1
        }),
{
}

/// A zero-length chunk does not end the read loop: it is reported as data,
/// the session is exactly as before, and the subsequent read behaves as if
/// the zero-length one had never happened — still eligible to return
/// further data or end-of-data.
pub proof fn lemma_zero_length_read_not_terminal(sv: SessionView, next: ChunkResult)
    requires
        sv.state == SessionState::Scanning,
    ensures
        ({
            let (sv1, r1) = spec_read(sv, ChunkResult::Data(0));
            r1 == Ok::<ChunkOutcome, ScanError>(ChunkOutcome::Data(0)) && sv1 == sv && spec_read(
                sv1,
                next,
            ) == spec_read(sv, next)
        }),
{
}

} // verus!
