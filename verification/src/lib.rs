//! A process-wide, lock-free switch that controls how sensitive values are
//! rendered when they are formatted for output (for example in logs).
//!
//! The switch is a single [`RedactLevel`] held in an atomic cell so that hot
//! formatting paths can read it without locks. [`RedactionConfig`]
//! encapsulates the cell and exposes the whole mutation and read surface:
//! [`RedactionConfig::set_level`] and [`RedactionConfig::current_level`].
//! Formatting code that renders under [`RedactLevel::Marker`] brackets the
//! redacted data with [`DEFAULT_REDACT_MARKER_HEAD`] and
//! [`DEFAULT_REDACT_MARKER_TAIL`].

use vstd::prelude::*;

verus! {

use atomic::Atomic;

/// Default redact marker head, used to mark the redacted data.
/// The value is the single left-pointing angle quotation character
/// `‹` (U+2039).
pub const DEFAULT_REDACT_MARKER_HEAD: &'static str = "‹";

/// Default redact marker tail, used to mark the redacted data.
/// The value is the single right-pointing angle quotation character
/// `›` (U+203A).
pub const DEFAULT_REDACT_MARKER_TAIL: &'static str = "›";

/// RedactLevel controls the redaction of log data.
///
/// The initial level of a fresh [`RedactionConfig`] is `Off`: no redaction.
/// `Marker` asks formatting code to bracket the redacted data with the
/// marker pair.
#[derive(Clone, Copy, Debug, PartialEq, Eq, Structural)]
pub enum RedactLevel {
    /// No redaction.
    Off,
    /// Redact the data with the '?' placeholder.
    On,
    /// Redact the data and bracket it with the `‹..›` marker pair.
    Marker,
}

#[verifier::external_type_specification]
#[verifier::external_body]
#[verifier::reject_recursive_types(T)]
pub struct ExAtomic<T>(Atomic<T>);

/// The level that an atomic cell holds.
pub uninterp spec fn stored_level(cell: Atomic<RedactLevel>) -> RedactLevel;

/// Relies on atomic::Atomic::new: the new cell holds exactly the given value.
#[verifier::external_body]
fn atomic_new(level: RedactLevel) -> (cell: Atomic<RedactLevel>)
    ensures
        stored_level(cell) == level,
{
    Atomic::new(level)
}

/// Relies on atomic::Atomic::store: the given value replaces the held one,
/// in a single atomic write. Relaxed ordering never panics there.
#[verifier::external_body]
fn atomic_store(cell: &mut Atomic<RedactLevel>, level: RedactLevel)
    ensures
        stored_level(*final(cell)) == level,
{
    cell.store(level, atomic::Ordering::Relaxed)
}

/// Relies on atomic::Atomic::load: returns the held value, read in a single
/// atomic read. Relaxed ordering never panics there.
#[verifier::external_body]
fn atomic_load(cell: &Atomic<RedactLevel>) -> (level: RedactLevel)
    ensures
        level == stored_level(*cell),
{
    cell.load(atomic::Ordering::Relaxed)
}

/// The effect of a store on the held level: the requested level replaces the
/// current one unconditionally, whatever the current one is.
pub open spec fn overwritten(current: RedactLevel, requested: RedactLevel) -> RedactLevel {
    requested
}

/// Holder of the current [`RedactLevel`], backed by a lock-free atomic cell.
///
/// A process keeps one instance for its lifetime and routes every change
/// through [`RedactionConfig::set_level`]; formatting code reads the current
/// level with [`RedactionConfig::current_level`].
pub struct RedactionConfig {
    cell: Atomic<RedactLevel>,
}

impl RedactionConfig {
    /// The level the configuration currently holds.
    pub closed spec fn level(&self) -> RedactLevel {
        stored_level(self.cell)
    }

    /// Creates a configuration holding the initial level, `Off`.
    pub fn new() -> (config: RedactionConfig)
        ensures
            config.level() == RedactLevel::Off,
    {
        RedactionConfig { cell: atomic_new(RedactLevel::Off) }
    }

    /// Overwrites the current level with the given one. The operation is
    /// total: it cannot fail, whatever the current and the given level are.
    pub fn set_level(&mut self, level: RedactLevel)
        ensures
            final(self).level() == overwritten(old(self).level(), level),
    {
        atomic_store(&mut self.cell, level);
    }

    /// Returns the level most recently stored in this configuration.
    pub fn current_level(&self) -> (level: RedactLevel)
        ensures
            level == self.level(),
    {
        atomic_load(&self.cell)
    }
}

impl Default for RedactionConfig {
    /// The default configuration holds the initial level, `Off`.
    fn default() -> (config: Self)
        ensures
            config.level() == RedactLevel::Off,
    {
        RedactionConfig::new()
    }
}

/// Set redact level.
pub fn set_redact_level(config: &mut RedactionConfig, redact_level: RedactLevel)
    ensures
        final(config).level() == redact_level,
{
    config.set_level(redact_level);
}

/// Set-then-get: storing any requested level leaves exactly that level to be
/// observed by a following read, whatever level was held before.
pub proof fn lemma_set_then_get(current: RedactLevel, requested: RedactLevel)
    ensures
        overwritten(current, requested) == requested,
{
}

/// Idempotence: storing the same level twice in succession leaves the same
/// observable level as storing it once.
pub proof fn lemma_set_idempotent(current: RedactLevel, requested: RedactLevel)
    ensures
        overwritten(overwritten(current, requested), requested) == overwritten(
            current,
            requested,
        ),
{
}

/// Overwrite: of two successive stores, the later one alone decides the level
/// that following reads observe; the earlier one is never observed again.
pub proof fn lemma_last_store_wins(
    current: RedactLevel,
    first: RedactLevel,
    second: RedactLevel,
)
    ensures
        overwritten(overwritten(current, first), second) == second,
{
}

/// Every level a read can return is one of the three defined variants: the
/// enumeration is closed, so no other state is representable.
pub proof fn lemma_level_is_defined_variant(level: RedactLevel)
    ensures
        level is Off || level is On || level is Marker,
{
}

/// Marker constants: the head marker is the single character U+2039, the tail
/// marker the single character U+203A, and both are non-empty.
pub proof fn lemma_marker_constants()
    ensures
        DEFAULT_REDACT_MARKER_HEAD@ =~= seq!['\u{2039}'],
        DEFAULT_REDACT_MARKER_TAIL@ =~= seq!['\u{203A}'],
        DEFAULT_REDACT_MARKER_HEAD@.len() > 0,
        DEFAULT_REDACT_MARKER_TAIL@.len() > 0,
{
    reveal_strlit("‹");
    reveal_strlit("›");
}

} // verus!
