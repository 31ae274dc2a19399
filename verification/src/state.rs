//! The state threaded through the three phases of an update.
use vstd::prelude::*;
use crate::text::{chars_of, string_of};

verus! {

/// The phase of the three-phase update process which an [`UpdateState`] is in.
///
/// Each phase runs from a *different* binary, so that the running executable
/// is never asked to overwrite itself.
#[derive(Debug, Clone, Copy, PartialEq, Eq, Structural)]
pub enum UpdatePhase {
    /// No update is in progress (the default).
    NoUpdate,
    /// The original application has downloaded the new binary and is about to
    /// launch it to perform the `replace` phase.
    Prepare,
    /// The downloaded binary overwrites the original application and launches
    /// it to perform the `cleanup` phase.
    Replace,
    /// The updated original application removes the temporary binary.
    Cleanup,
}

impl Default for UpdatePhase {
    fn default() -> (r: UpdatePhase)
        ensures
            r == UpdatePhase::NoUpdate,
    {
        UpdatePhase::NoUpdate
    }
}

/// The name of a phase, as it is written in a serialized state and in messages.
pub open spec fn phase_name(phase: UpdatePhase) -> Seq<char> {
    match phase {
        UpdatePhase::NoUpdate => "no-update"@,
        UpdatePhase::Prepare => "prepare"@,
        UpdatePhase::Replace => "replace"@,
        UpdatePhase::Cleanup => "cleanup"@,
    }
}

/// The name of the phase's variant (`NoUpdate`, `Prepare`, ...).
pub open spec fn phase_variant_name(phase: UpdatePhase) -> Seq<char> {
    match phase {
        UpdatePhase::NoUpdate => "NoUpdate"@,
        UpdatePhase::Prepare => "Prepare"@,
        UpdatePhase::Replace => "Replace"@,
        UpdatePhase::Cleanup => "Cleanup"@,
    }
}

impl UpdatePhase {
    /// The phase's name: `no-update`, `prepare`, `replace` or `cleanup`.
    pub fn as_str(&self) -> (r: &'static str)
        ensures
            r@ == phase_name(*self),
    {
        match self {
            UpdatePhase::NoUpdate => "no-update",
            UpdatePhase::Prepare => "prepare",
            UpdatePhase::Replace => "replace",
            UpdatePhase::Cleanup => "cleanup",
        }
    }

    /// The phase's name as an owned string.
    pub fn to_string(&self) -> (r: String)
        ensures
            r@ == phase_name(*self),
    {
        let cs = chars_of(self.as_str());
        string_of(cs.as_slice())
    }

    /// The name of the phase's variant (`NoUpdate`, `Prepare`, ...).
    pub fn variant_name(&self) -> (r: &'static str)
        ensures
            r@ == phase_variant_name(*self),
    {
        match self {
            UpdatePhase::NoUpdate => "NoUpdate",
            UpdatePhase::Prepare => "Prepare",
            UpdatePhase::Replace => "Replace",
            UpdatePhase::Cleanup => "Cleanup",
        }
    }
}

/// The state threaded through the phases of an update: each phase relaunches
/// the application with this state (serialized) after the resume flag.
#[derive(Debug, Clone)]
pub struct UpdateState {
    /// The path of the application binary which is being updated.
    pub target_application: Option<String>,
    /// The path of the temporary binary which the new release was downloaded to.
    pub temporary_application: Option<String>,
    /// A trace-context propagation carrier (header name and value pairs, each
    /// name once) captured from the phase that relaunched the application, so
    /// that the phases of an update can continue one distributed trace.
    pub trace_context: Option<Vec<(String, String)>>,
    /// The phase of the update process which this state represents.
    pub phase: UpdatePhase,
}

pub struct UpdateStateView {
    pub target_application: Option<Seq<char>>,
    pub temporary_application: Option<Seq<char>>,
    pub trace_context: Option<Seq<(Seq<char>, Seq<char>)>>,
    pub phase: UpdatePhase,
}

pub open spec fn opt_text(s: Option<String>) -> Option<Seq<char>> {
    match s {
        Some(x) => Some(x@),
        None => None,
    }
}

pub open spec fn carrier_view(c: Seq<(String, String)>) -> Seq<(Seq<char>, Seq<char>)> {
    c.map_values(|e: (String, String)| (e.0@, e.1@))
}

pub open spec fn opt_carrier_view(c: Option<Vec<(String, String)>>) -> Option<
    Seq<(Seq<char>, Seq<char>)>,
> {
    match c {
        Some(v) => Some(carrier_view(v@)),
        None => None,
    }
}

/// Two carriers hold the same (name, value) pairs, whatever their order.
pub open spec fn same_pairs(a: Seq<(Seq<char>, Seq<char>)>, b: Seq<(Seq<char>, Seq<char>)>) -> bool {
    &&& forall|i: int| 0 <= i < a.len() ==> b.contains(#[trigger] a[i])
    &&& forall|j: int| 0 <= j < b.len() ==> a.contains(#[trigger] b[j])
}

/// Two optional carriers are both absent, or both present with the same pairs.
pub open spec fn same_carrier(
    a: Option<Seq<(Seq<char>, Seq<char>)>>,
    b: Option<Seq<(Seq<char>, Seq<char>)>>,
) -> bool {
    match (a, b) {
        (None, None) => true,
        (Some(x), Some(y)) => same_pairs(x, y),
        _ => false,
    }
}

/// No header name occurs twice in a carrier.
pub open spec fn names_distinct(c: Seq<(Seq<char>, Seq<char>)>) -> bool {
    forall|i: int, j: int| 0 <= i < j < c.len() ==> #[trigger] c[i].0 != #[trigger] c[j].0
}

impl View for UpdateState {
    type V = UpdateStateView;

    open spec fn view(&self) -> UpdateStateView {
        UpdateStateView {
            target_application: opt_text(self.target_application),
            temporary_application: opt_text(self.temporary_application),
            trace_context: opt_carrier_view(self.trace_context),
            phase: self.phase,
        }
    }
}

impl UpdateStateView {
    /// The carrier holds each header name once.
    pub open spec fn well_formed(self) -> bool {
        self.trace_context matches Some(c) ==> names_distinct(c)
    }

    /// The same state, in another phase.
    pub open spec fn in_phase(self, phase: UpdatePhase) -> UpdateStateView {
        UpdateStateView { phase, ..self }
    }

    /// The same state, carrying `carrier` where it is not empty.
    pub open spec fn carrying(self, carrier: Seq<(Seq<char>, Seq<char>)>) -> UpdateStateView {
        if carrier.len() == 0 {
            self
        } else {
            UpdateStateView { trace_context: Some(carrier), ..self }
        }
    }
}

fn copy_text(s: &Option<String>) -> (r: Option<String>)
    ensures
        opt_text(r) == opt_text(*s),
{
    match s {
        Some(x) => Some(x.clone()),
        None => None,
    }
}

fn copy_carrier(c: &Vec<(String, String)>) -> (r: Vec<(String, String)>)
    ensures
        carrier_view(r@) == carrier_view(c@),
{
    let mut out: Vec<(String, String)> = Vec::new();
    let mut i: usize = 0;
    while i < c.len()
        invariant
            i <= c.len(),
            out@.len() == i,
            forall|j: int| 0 <= j < i ==> #[trigger] out@[j].0@ == c@[j].0@ && out@[j].1@ == c@[j].1@,
        decreases c.len() - i,
    {
        let k = c[i].0.clone();
        let v = c[i].1.clone();
        out.push((k, v));
        i = i + 1;
    }
    assert(carrier_view(out@) =~= carrier_view(c@));
    out
}

fn same_opt_text(a: &Option<String>, b: &Option<String>) -> (r: bool)
    ensures
        r == (opt_text(*a) == opt_text(*b)),
{
    match (a, b) {
        (None, None) => true,
        (Some(x), Some(y)) => *x == *y,
        _ => false,
    }
}

/// Whether the pair (`name`, `value`) is one of the pairs of `c`.
fn has_pair(c: &Vec<(String, String)>, name: &String, value: &String) -> (r: bool)
    ensures
        r == carrier_view(c@).contains((name@, value@)),
{
    let mut i: usize = 0;
    while i < c.len()
        invariant
            i <= c.len(),
            forall|j: int| 0 <= j < i ==> carrier_view(c@)[j] != (name@, value@),
        decreases c.len() - i,
    {
        if c[i].0 == *name && c[i].1 == *value {
            assert(carrier_view(c@)[i as int] == (name@, value@));
            return true;
        }
        i = i + 1;
    }
    false
}

/// Whether every pair of `a` is one of the pairs of `b`.
fn has_all_pairs(a: &Vec<(String, String)>, b: &Vec<(String, String)>) -> (r: bool)
    ensures
        r == forall|i: int|
            0 <= i < a@.len() ==> carrier_view(b@).contains(#[trigger] carrier_view(a@)[i]),
{
    let mut i: usize = 0;
    while i < a.len()
        invariant
            i <= a.len(),
            forall|j: int| 0 <= j < i ==> carrier_view(b@).contains(#[trigger] carrier_view(a@)[j]),
        decreases a.len() - i,
    {
        if !has_pair(b, &a[i].0, &a[i].1) {
            assert(!carrier_view(b@).contains(carrier_view(a@)[i as int]));
            return false;
        }
        i = i + 1;
    }
    true
}

fn same_opt_carrier(a: &Option<Vec<(String, String)>>, b: &Option<Vec<(String, String)>>) -> (r: bool)
    ensures
        r == same_carrier(opt_carrier_view(*a), opt_carrier_view(*b)),
{
    match (a, b) {
        (None, None) => true,
        (Some(x), Some(y)) => has_all_pairs(x, y) && has_all_pairs(y, x),
        _ => false,
    }
}

/// Two states are equal when their paths and phase are equal and they carry
/// the same trace-context pairs (as maps are equal: the order of the pairs
/// does not matter).
impl PartialEq for UpdateState {
    fn eq(&self, other: &UpdateState) -> (r: bool) {
        same_opt_text(&self.target_application, &other.target_application)
            && same_opt_text(&self.temporary_application, &other.temporary_application)
            && same_opt_carrier(&self.trace_context, &other.trace_context)
            && self.phase == other.phase
    }
}

impl vstd::std_specs::cmp::PartialEqSpecImpl for UpdateState {
    open spec fn obeys_eq_spec() -> bool {
        true
    }

    open spec fn eq_spec(&self, other: &UpdateState) -> bool {
        &&& opt_text(self.target_application) == opt_text(other.target_application)
        &&& opt_text(self.temporary_application) == opt_text(other.temporary_application)
        &&& same_carrier(opt_carrier_view(self.trace_context), opt_carrier_view(other.trace_context))
        &&& self.phase == other.phase
    }
}

impl Eq for UpdateState {}

impl Default for UpdateState {
    fn default() -> (r: UpdateState)
        ensures
            r@ == (UpdateStateView {
                target_application: None,
                temporary_application: None,
                trace_context: None,
                phase: UpdatePhase::NoUpdate,
            }),
    {
        UpdateState {
            target_application: None,
            temporary_application: None,
            trace_context: None,
            phase: UpdatePhase::NoUpdate,
        }
    }
}

impl UpdateState {
    /// A copy of this state advanced to `phase`, keeping the application paths
    /// and any captured trace context.
    pub fn for_phase(&self, phase: UpdatePhase) -> (r: UpdateState)
        ensures
            r@ == self@.in_phase(phase),
    {
        let trace_context = match &self.trace_context {
            Some(c) => Some(copy_carrier(c)),
            None => None,
        };
        UpdateState {
            target_application: copy_text(&self.target_application),
            temporary_application: copy_text(&self.temporary_application),
            trace_context,
            phase,
        }
    }

    /// Keep the trace-context `carrier` that the active propagator produced, so
    /// the next phase can continue the same distributed trace. An empty carrier
    /// (no propagator installed, or no active context) leaves the state as it is.
    pub fn capture_trace_context(&mut self, carrier: Vec<(String, String)>)
        requires
            names_distinct(carrier_view(carrier@)),
        ensures
            final(self)@ == old(self)@.carrying(carrier_view(carrier@)),
    {
        if carrier.len() > 0 {
            self.trace_context = Some(carrier);
        }
    }

    /// The state as text: the name of its phase's variant.
    pub fn to_string(&self) -> (r: String)
        ensures
            r@ == phase_variant_name(self.phase),
    {
        let cs = chars_of(self.phase.variant_name());
        string_of(cs.as_slice())
    }
}

/// Advancing a state to another phase keeps everything but the phase, and a
/// state advanced twice is the state advanced once to the last phase.
pub proof fn law_for_phase_keeps_everything_but_the_phase(
    s: UpdateStateView,
    first: UpdatePhase,
    second: UpdatePhase,
)
    ensures
        s.in_phase(first).target_application == s.target_application,
        s.in_phase(first).temporary_application == s.temporary_application,
        s.in_phase(first).trace_context == s.trace_context,
        s.in_phase(first).phase == first,
        s.in_phase(first).in_phase(second) == s.in_phase(second),
        s.well_formed() ==> s.in_phase(first).well_formed(),
{
}

} // verus!
