//! Backend tier selection and the lazily published backend slot.
//!
//! Both rest on one shared word each and on nothing else: no lock guards
//! them, since they are what the locks are built from. The executable
//! functions work on real atomics, of whose values nothing is known in
//! advance; what they decide for each value stands in functions of its own.
//! The module `races` follows every interleaving of their atomic steps.

use std::sync::atomic::AtomicUsize;
use std::sync::atomic::Ordering;
use vstd::prelude::*;

verus! {

/// The generation of native primitive that backs every lock of a process.
#[derive(Debug, Clone, Copy, PartialEq, Eq, Structural)]
pub enum MutexKind {
    /// Native shared/exclusive slim lock.
    SrwLock,
    /// Critical section: exclusive only, reentrant for its owner.
    CriticalSection,
    /// Handle-based kernel mutex, available on the oldest systems.
    Legacy,
}

impl MutexKind {
    /// The two tiers without a native slim lock.
    pub open spec fn spec_is_degraded(self) -> bool {
        self !is SrwLock
    }

    /// Whether this is one of the two tiers without a native slim lock.
    #[verifier::when_used_as_spec(spec_is_degraded)]
    pub fn is_degraded(self) -> (degraded: bool)
        ensures
            degraded == self.spec_is_degraded(),
    {
        match self {
            MutexKind::SrwLock => false,
            MutexKind::CriticalSection | MutexKind::Legacy => true,
        }
    }
}

/// The tier that a pair of probe answers selects: the slim lock when its
/// try-acquire entry point exists, else the critical section when its
/// try-enter entry point exists, else the kernel mutex.
pub open spec fn kind_of(try_srw: bool, try_cs: bool) -> MutexKind {
    if try_srw {
        MutexKind::SrwLock
    } else if try_cs {
        MutexKind::CriticalSection
    } else {
        MutexKind::Legacy
    }
}

/// The word that the tier cache holds for a tier. Zero stands for a cache
/// that is not filled yet, so no tier maps to it.
pub open spec fn kind_word(kind: MutexKind) -> usize {
    match kind {
        MutexKind::SrwLock => 1,
        MutexKind::CriticalSection => 2,
        MutexKind::Legacy => 3,
    }
}

/// The tier that a word of the tier cache stands for, if any.
pub open spec fn cached(word: usize) -> Option<MutexKind> {
    if word == 1 {
        Some(MutexKind::SrwLock)
    } else if word == 2 {
        Some(MutexKind::CriticalSection)
    } else if word == 3 {
        Some(MutexKind::Legacy)
    } else {
        None
    }
}

/// The probe has one answer only: whenever it runs, it says `answer`.
pub open spec fn answers<F: FnOnce() -> bool>(probe: F, answer: bool) -> bool {
    forall|said: bool| probe.ensures((), said) ==> said == answer
}

/// Runs the probes in order and stops at the first entry point that exists.
pub fn probe<F: FnOnce() -> bool, G: FnOnce() -> bool>(try_srw: F, try_cs: G) -> (kind: MutexKind)
    requires
        try_srw.requires(()),
        try_cs.requires(()),
    ensures
        kind is SrwLock ==> try_srw.ensures((), true),
        kind is CriticalSection ==> try_srw.ensures((), false) && try_cs.ensures((), true),
        kind is Legacy ==> try_srw.ensures((), false) && try_cs.ensures((), false),
        forall|srw: bool, cs: bool|
            answers(try_srw, srw) && answers(try_cs, cs) ==> kind == #[trigger] kind_of(srw, cs),
{
    if try_srw() {
        MutexKind::SrwLock
    } else if try_cs() {
        MutexKind::CriticalSection
    } else {
        MutexKind::Legacy
    }
}

/// Encodes a tier for the cache.
pub fn encode_kind(kind: MutexKind) -> (word: usize)
    ensures
        word == kind_word(kind),
        cached(word) == Some(kind),
{
    match kind {
        MutexKind::SrwLock => 1,
        MutexKind::CriticalSection => 2,
        MutexKind::Legacy => 3,
    }
}

/// Decodes a word of the cache.
pub fn cached_kind(word: usize) -> (kind: Option<MutexKind>)
    ensures
        kind == cached(word),
{
    if word == 1 {
        Some(MutexKind::SrwLock)
    } else if word == 2 {
        Some(MutexKind::CriticalSection)
    } else if word == 3 {
        Some(MutexKind::Legacy)
    } else {
        None
    }
}

/// What one call of `detect` found and what it has to publish.
pub struct Detection {
    /// The tier to dispatch on.
    pub kind: MutexKind,
    /// The word to store into the cache, when the cache was empty.
    pub publish: Option<usize>,
}

/// Decides a detection from the word that the cache held. A filled cache
/// answers by itself. An empty one has the probes run, and their result is
/// handed back together with its word for the cache.
pub fn detect_from<F: FnOnce() -> bool, G: FnOnce() -> bool>(
    word: usize,
    try_srw: F,
    try_cs: G,
) -> (found: Detection)
    requires
        try_srw.requires(()),
        try_cs.requires(()),
    ensures
        cached(word) matches Some(kind) ==> found.kind == kind && found.publish is None,
        cached(word) is None ==> {
            &&& found.publish == Some(kind_word(found.kind))
            &&& forall|srw: bool, cs: bool|
                answers(try_srw, srw) && answers(try_cs, cs) ==> found.kind == #[trigger] kind_of(
                    srw,
                    cs,
                )
            &&& found.kind is SrwLock ==> try_srw.ensures((), true)
            &&& found.kind is CriticalSection ==> try_srw.ensures((), false) && try_cs.ensures(
                (),
                true,
            )
            &&& found.kind is Legacy ==> try_srw.ensures((), false) && try_cs.ensures((), false)
        },
{
    match cached_kind(word) {
        Some(kind) => Detection { kind, publish: None },
        None => {
            let kind = probe(try_srw, try_cs);
            Detection { kind, publish: Some(encode_kind(kind)) }
        },
    }
}

/// The active tier of the process, remembered in `cell`.
///
/// The first callers find the cache empty, probe, and store what they found;
/// later callers pay one atomic load. Callers that race each store the same
/// word, so the cache needs no compare-and-exchange. What is returned for
/// each word that the load may yield is the contract of `detect_from`.
pub fn detect<F: FnOnce() -> bool, G: FnOnce() -> bool>(
    cell: &AtomicUsize,
    try_srw: F,
    try_cs: G,
) -> (kind: MutexKind)
    requires
        try_srw.requires(()),
        try_cs.requires(()),
{
    let word = cell.load(Ordering::SeqCst);
    let found = detect_from(word, try_srw, try_cs);
    match found.publish {
        Some(word) => cell.store(word, Ordering::SeqCst),
        None => {},
    }
    found.kind
}

/// The backend that a word of a backend slot publishes: zero publishes none.
pub open spec fn published(word: usize) -> Option<usize> {
    if word == 0 {
        None
    } else {
        Some(word)
    }
}

/// Reads a word loaded from a backend slot.
pub fn after_load(word: usize) -> (backend: Option<usize>)
    ensures
        backend == published(word),
{
    if word == 0 {
        None
    } else {
        Some(word)
    }
}

/// How an attempt to publish a new backend ended.
#[derive(Debug, Clone, Copy, PartialEq, Eq, Structural)]
pub struct Publication {
    /// The backend that the slot holds from now on.
    pub backend: usize,
    /// The backend that was built in vain and has to be destroyed unused.
    pub discard: Option<usize>,
}

/// The end of an attempt to publish `mine`, given the answer of the
/// exchange: on success `mine` is the backend, on failure the winner's is
/// and `mine` goes.
pub open spec fn settle(answer: Result<usize, usize>, mine: usize) -> Publication {
    match answer {
        Ok(_) => Publication { backend: mine, discard: None },
        Err(winner) => Publication { backend: winner, discard: Some(mine) },
    }
}

/// Reads the answer of the exchange that tried to publish `mine`.
pub fn after_exchange(answer: Result<usize, usize>, mine: usize) -> (end: Publication)
    ensures
        end == settle(answer, mine),
{
    match answer {
        Ok(_) => Publication { backend: mine, discard: None },
        Err(winner) => Publication { backend: winner, discard: Some(mine) },
    }
}

/// `AtomicUsize::compare_exchange` from zero to `new`, sequentially
/// consistent. Trusted to answer as the standard library documents it: `Ok`
/// with the previous value, which then equals the expected zero, or `Err`
/// with the value found instead, which then differs from zero.
#[verifier::external_body]
fn publish_if_unresolved(storage: &AtomicUsize, new: usize) -> (answer: Result<usize, usize>)
    ensures
        answer matches Ok(previous) ==> previous == 0,
        answer matches Err(found) ==> found != 0,
{
    storage.compare_exchange(0, new, Ordering::SeqCst, Ordering::SeqCst)
}

/// Resolves a backend slot: returns the backend that the slot publishes, and
/// builds and publishes one first if there is none.
///
/// A slot that is resolved costs one atomic load. Otherwise `init` builds a
/// backend, and one compare-and-exchange from zero tries to publish it. When
/// another thread was faster, `destroy` gets the backend that was built in
/// vain, and the winner's is returned. What is decided for each value that
/// the load and the exchange may yield is the contract of `after_load` and
/// `after_exchange`.
pub fn atomic_init<I: FnOnce() -> usize, D: FnOnce(usize)>(
    storage: &AtomicUsize,
    init: I,
    destroy: D,
) -> (backend: usize)
    requires
        init.requires(()),
        forall|built: usize| init.ensures((), built) ==> built != 0 && destroy.requires((built,)),
    ensures
        backend != 0,
{
    match after_load(storage.load(Ordering::SeqCst)) {
        Some(backend) => backend,
        None => {
            let mine = init();
            let end = after_exchange(publish_if_unresolved(storage, mine), mine);
            match end.discard {
                Some(loser) => destroy(loser),
                None => {},
            }
            end.backend
        },
    }
}

} // verus!
