//! The shared configuration state: a single `prefix` string, written once by
//! the init transition and read (by copy) on later events.
//!
//! The host may call the two lifecycle transitions from different threads, so
//! it is expected to guard one `SharedConfig` value with a mutual-exclusion
//! primitive of its own; every method here either borrows the value shared or
//! takes it exclusively, so a reader can never observe a half-written string.

use vstd::prelude::*;

verus! {

/// The process-wide configuration: one attribute, the `prefix` string.
///
/// It starts empty and is overwritten by each init transition; readers copy
/// the value out rather than holding a borrow across downstream work.
pub struct SharedConfig {
    prefix: String,
}

impl View for SharedConfig {
    type V = Seq<char>;

    closed spec fn view(&self) -> Seq<char> {
        self.prefix@
    }
}

/// What an init transition stores, as a function of the host's configuration
/// lookup: the looked-up value when the option is present, the default
/// `"something"` otherwise. Absence is not a failure.
pub open spec fn resolved_prefix(lookup: Option<Seq<char>>) -> Seq<char> {
    match lookup {
        Some(p) => p,
        None => "something"@,
    }
}

/// The configuration value after an init transition, given the value before
/// it and the host's lookup. The result depends on the lookup alone: an init
/// transition overwrites whatever was stored.
pub open spec fn init_state(before: Seq<char>, lookup: Option<Seq<char>>) -> Seq<char> {
    resolved_prefix(lookup)
}

/// Resolve the host's configuration lookup to the value to store.
pub fn resolve_prefix(lookup: Option<String>) -> (r: String)
    ensures
        r@ == resolved_prefix(lookup.deep_view()),
{
    match lookup {
        Some(p) => p,
        None => "something".to_owned(),
    }
}

impl SharedConfig {
    /// A fresh configuration, empty until the first init transition stores a
    /// value.
    pub fn new() -> (r: SharedConfig)
        ensures
            r@ == Seq::<char>::empty(),
    {
        SharedConfig { prefix: String::new() }
    }

    /// Store `value`, overwriting whatever was stored before.
    pub fn store(&mut self, value: String)
        ensures
            final(self)@ == value@,
    {
        self.prefix = value;
    }

    /// Copy the stored value out.
    pub fn read(&self) -> (r: String)
        ensures
            r@ == self@,
    {
        self.prefix.clone()
    }
}

/// Re-initialisation keeps only the most recent configuration: two init
/// transitions in a row leave the state the second lookup resolves to, as if
/// the first had never happened.
pub proof fn lemma_reinit_overwrites(
    s0: Seq<char>,
    first: Option<Seq<char>>,
    second: Option<Seq<char>>,
)
    ensures
        init_state(init_state(s0, first), second) == init_state(s0, second),
{
}

} // verus!
