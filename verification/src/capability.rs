//! Optional entry points of the system: how one is looked up in a system
//! library at run time, and the table that remembers each outcome for the
//! life of the process.

use vstd::prelude::*;

verus! {

/// The address of an entry point that a lookup found. It is never zero.
#[derive(Clone, Copy, Debug, PartialEq, Eq, Structural)]
pub struct FnAddress {
    pub raw: usize,
}

/// The optional entry points that the library knows of.
#[derive(Clone, Copy, Debug, PartialEq, Eq, Hash, Structural)]
pub enum Capability {
    SetProcessDpiAware,
    SetProcessDpiAwareness,
    SetProcessDpiAwarenessContext,
    GetDpiForWindow,
    GetDpiForMonitor,
    EnableNonClientDpiScaling,
    AdjustWindowRectExForDpi,
}

/// What is known of one entry point.
#[derive(Clone, Copy, Debug, PartialEq, Eq, Structural)]
pub enum Resolution {
    /// Nobody has looked yet.
    Unresolved,
    /// The lookup failed; the entry point stays absent for this process.
    Absent,
    /// The lookup found the entry point at this address.
    Present(FnAddress),
}

/// What the system answered so far in the lookup of one entry point.
#[derive(Clone, Copy, Debug, PartialEq, Eq, Structural)]
pub struct ProbeReplies {
    /// The module that loading the library gave; zero where it failed.
    pub module: Option<usize>,
    /// The address that the symbol lookup gave; zero where it failed.
    pub address: Option<usize>,
}

/// What a lookup does next.
#[derive(Clone, Copy, Debug, PartialEq, Eq)]
pub enum ProbeStep<'a> {
    /// Load the library of this name into the process, if it is not there.
    LoadLibrary { library: &'a str },
    /// Look this symbol up in the loaded module.
    FindSymbol { module: usize, function: &'a str },
    /// The lookup is over, with or without an address.
    Done(Option<FnAddress>),
}

/// Whether a string ends in the character zero.
pub open spec fn is_nul_terminated(s: Seq<char>) -> bool {
    s.len() > 0 && s.last() == '\0'
}

/// The next step of a lookup, given the answers so far: load the library;
/// give up where it did not load; look the symbol up; give up where it was
/// not found; else the address.
pub open spec fn spec_probe<'a>(library: &'a str, function: &'a str, replies: ProbeReplies)
    -> ProbeStep<'a> {
    match replies.module {
        None => ProbeStep::LoadLibrary { library },
        Some(module) => if module == 0 {
            ProbeStep::Done(None)
        } else {
            match replies.address {
                None => ProbeStep::FindSymbol { module, function },
                Some(address) => if address == 0 {
                    ProbeStep::Done(None)
                } else {
                    ProbeStep::Done(Some(FnAddress { raw: address }))
                },
            }
        },
    }
}

/// The outcome that a finished lookup leaves in the table.
pub open spec fn resolution_of(probed: Option<FnAddress>) -> Resolution {
    match probed {
        Some(address) => Resolution::Present(address),
        None => Resolution::Absent,
    }
}

/// What the table holds for an entry after a lookup's outcome is offered to
/// it: the outcome where nothing was known, else what was known before.
pub open spec fn spec_resolve(known: Resolution, probed: Option<FnAddress>) -> Resolution {
    if known is Unresolved {
        resolution_of(probed)
    } else {
        known
    }
}

impl Resolution {
    /// The address of a present entry point.
    pub open spec fn address(self) -> Option<FnAddress> {
        match self {
            Resolution::Present(address) => Some(address),
            _ => None,
        }
    }
}

impl Capability {
    /// Whether the entry point lives in the scaling library and not in
    /// the windowing library.
    pub open spec fn in_scaling_library(self) -> bool {
        self is SetProcessDpiAwareness || self is GetDpiForMonitor
    }

    /// The name of the system library that holds the entry point.
    pub open spec fn spec_library(self) -> &'static str {
        if self.in_scaling_library() {
            "shcore.dll\0"
        } else {
            "user32.dll\0"
        }
    }

    /// The name of the entry point.
    pub open spec fn spec_symbol(self) -> &'static str {
        match self {
            Capability::SetProcessDpiAware => "SetProcessDPIAware\0",
            Capability::SetProcessDpiAwareness => "SetProcessDpiAwareness\0",
            Capability::SetProcessDpiAwarenessContext => "SetProcessDpiAwarenessContext\0",
            Capability::GetDpiForWindow => "GetDpiForWindow\0",
            Capability::GetDpiForMonitor => "GetDpiForMonitor\0",
            Capability::EnableNonClientDpiScaling => "EnableNonClientDpiScaling\0",
            Capability::AdjustWindowRectExForDpi => "AdjustWindowRectExForDpi\0",
        }
    }

    /// The name of the system library that holds the entry point, ending
    /// in the character zero.
    pub fn library(self) -> (name: &'static str)
        ensures
            name == self.spec_library(),
            is_nul_terminated(name@),
    {
        proof {
            reveal_strlit("shcore.dll\0");
            reveal_strlit("user32.dll\0");
        }
        match self {
            Capability::SetProcessDpiAwareness | Capability::GetDpiForMonitor => "shcore.dll\0",
            _ => "user32.dll\0",
        }
    }

    /// The name of the entry point, ending in the character zero.
    pub fn symbol(self) -> (name: &'static str)
        ensures
            name == self.spec_symbol(),
            is_nul_terminated(name@),
    {
        proof {
            reveal_strlit("SetProcessDPIAware\0");
            reveal_strlit("SetProcessDpiAwareness\0");
            reveal_strlit("SetProcessDpiAwarenessContext\0");
            reveal_strlit("GetDpiForWindow\0");
            reveal_strlit("GetDpiForMonitor\0");
            reveal_strlit("EnableNonClientDpiScaling\0");
            reveal_strlit("AdjustWindowRectExForDpi\0");
        }
        match self {
            Capability::SetProcessDpiAware => "SetProcessDPIAware\0",
            Capability::SetProcessDpiAwareness => "SetProcessDpiAwareness\0",
            Capability::SetProcessDpiAwarenessContext => "SetProcessDpiAwarenessContext\0",
            Capability::GetDpiForWindow => "GetDpiForWindow\0",
            Capability::GetDpiForMonitor => "GetDpiForMonitor\0",
            Capability::EnableNonClientDpiScaling => "EnableNonClientDpiScaling\0",
            Capability::AdjustWindowRectExForDpi => "AdjustWindowRectExForDpi\0",
        }
    }
}

/// The table of what is known of each entry point. One such table stands
/// for the whole process; an entry, once written, is never written again.
#[derive(Debug)]
pub struct CapabilityCache {
    set_process_dpi_aware: Resolution,
    set_process_dpi_awareness: Resolution,
    set_process_dpi_awareness_context: Resolution,
    get_dpi_for_window: Resolution,
    get_dpi_for_monitor: Resolution,
    enable_non_client_dpi_scaling: Resolution,
    adjust_window_rect_ex_for_dpi: Resolution,
}

impl CapabilityCache {
    /// What the table holds for an entry point.
    pub closed spec fn entry(&self, capability: Capability) -> Resolution {
        match capability {
            Capability::SetProcessDpiAware => self.set_process_dpi_aware,
            Capability::SetProcessDpiAwareness => self.set_process_dpi_awareness,
            Capability::SetProcessDpiAwarenessContext => self.set_process_dpi_awareness_context,
            Capability::GetDpiForWindow => self.get_dpi_for_window,
            Capability::GetDpiForMonitor => self.get_dpi_for_monitor,
            Capability::EnableNonClientDpiScaling => self.enable_non_client_dpi_scaling,
            Capability::AdjustWindowRectExForDpi => self.adjust_window_rect_ex_for_dpi,
        }
    }

    /// The table of a process that has looked nothing up yet.
    pub fn new() -> (cache: CapabilityCache)
        ensures
            forall|capability: Capability| cache.entry(capability) is Unresolved,
    {
        CapabilityCache {
            set_process_dpi_aware: Resolution::Unresolved,
            set_process_dpi_awareness: Resolution::Unresolved,
            set_process_dpi_awareness_context: Resolution::Unresolved,
            get_dpi_for_window: Resolution::Unresolved,
            get_dpi_for_monitor: Resolution::Unresolved,
            enable_non_client_dpi_scaling: Resolution::Unresolved,
            adjust_window_rect_ex_for_dpi: Resolution::Unresolved,
        }
    }

    /// What is known of an entry point. `Unresolved` tells the caller to
    /// run a lookup and offer its outcome to `resolve`.
    pub fn lookup(&self, capability: Capability) -> (known: Resolution)
        ensures
            known == self.entry(capability),
    {
        match capability {
            Capability::SetProcessDpiAware => self.set_process_dpi_aware,
            Capability::SetProcessDpiAwareness => self.set_process_dpi_awareness,
            Capability::SetProcessDpiAwarenessContext => self.set_process_dpi_awareness_context,
            Capability::GetDpiForWindow => self.get_dpi_for_window,
            Capability::GetDpiForMonitor => self.get_dpi_for_monitor,
            Capability::EnableNonClientDpiScaling => self.enable_non_client_dpi_scaling,
            Capability::AdjustWindowRectExForDpi => self.adjust_window_rect_ex_for_dpi,
        }
    }

    /// Advances the resolving of an entry point by one step.
    ///
    /// For an entry point that the table knows of, the result is `Done`
    /// with what the table holds, whatever `replies` says: no call into
    /// the system is asked for. For one that nobody has looked up yet, the
    /// result is the next step of its lookup by its two names. The caller
    /// offers the outcome of `Done` to `resolve`.
    pub fn resolve_step(&self, capability: Capability, replies: ProbeReplies) -> (step: ProbeStep<
        'static,
    >)
        ensures
            step == spec_resolve_step(self.entry(capability), capability, replies),
            !(self.entry(capability) is Unresolved) ==> step == ProbeStep::Done(
                self.entry(capability).address(),
            ),
    {
        match self.lookup(capability) {
            Resolution::Present(address) => ProbeStep::Done(Some(address)),
            Resolution::Absent => ProbeStep::Done(None),
            Resolution::Unresolved => get_function_impl(
                capability.library(),
                capability.symbol(),
                replies,
            ),
        }
    }

    /// Offers the outcome of a lookup to the table and gives the address
    /// that the table holds for the entry point from now on.
    ///
    /// The first outcome offered for an entry point is kept; a later one is
    /// dropped, so that every caller sees the same answer. No other entry
    /// changes.
    pub fn resolve(&mut self, capability: Capability, probed: Option<FnAddress>) -> (address:
        Option<FnAddress>)
        ensures
            final(self).entry(capability) == spec_resolve(old(self).entry(capability), probed),
            forall|other: Capability|
                other != capability ==> final(self).entry(other) == old(self).entry(other),
            address == final(self).entry(capability).address(),
            !(final(self).entry(capability) is Unresolved),
    {
        let known = self.lookup(capability);
        let kept = match known {
            Resolution::Unresolved => match probed {
                Some(found) => Resolution::Present(found),
                None => Resolution::Absent,
            },
            _ => known,
        };
        match capability {
            Capability::SetProcessDpiAware => { self.set_process_dpi_aware = kept; },
            Capability::SetProcessDpiAwareness => { self.set_process_dpi_awareness = kept; },
            Capability::SetProcessDpiAwarenessContext => {
                self.set_process_dpi_awareness_context = kept;
            },
            Capability::GetDpiForWindow => { self.get_dpi_for_window = kept; },
            Capability::GetDpiForMonitor => { self.get_dpi_for_monitor = kept; },
            Capability::EnableNonClientDpiScaling => {
                self.enable_non_client_dpi_scaling = kept;
            },
            Capability::AdjustWindowRectExForDpi => { self.adjust_window_rect_ex_for_dpi = kept; },
        }
        match kept {
            Resolution::Present(found) => Some(found),
            _ => None,
        }
    }
}

/// The next step of resolving an entry point: what the table holds where
/// it holds something, else the next step of the lookup.
pub open spec fn spec_resolve_step(known: Resolution, capability: Capability, replies: ProbeReplies)
    -> ProbeStep<'static> {
    if known is Unresolved {
        spec_probe(capability.spec_library(), capability.spec_symbol(), replies)
    } else {
        ProbeStep::Done(known.address())
    }
}

/// How many lookups are run when one entry point is resolved once for each
/// element of `finds`, in order. An element is what a lookup would find at
/// that time; it is read only where a lookup is run.
pub open spec fn lookups_run(known: Resolution, finds: Seq<Option<FnAddress>>) -> nat
    decreases finds.len(),
{
    if finds.len() == 0 {
        0
    } else {
        let first: nat = if known is Unresolved {
            1
        } else {
            0
        };
        first + lookups_run(spec_resolve(known, finds[0]), finds.skip(1))
    }
}

/// What the table holds for an entry point after it was resolved once for
/// each element of `finds`, in order.
pub open spec fn known_after(known: Resolution, finds: Seq<Option<FnAddress>>) -> Resolution
    decreases finds.len(),
{
    if finds.len() == 0 {
        known
    } else {
        known_after(spec_resolve(known, finds[0]), finds.skip(1))
    }
}

/// However often an entry point is resolved, a lookup is run at most once:
/// once where nothing was known before the first time, and never else. All
/// the later times only read what the first one left, whatever a lookup
/// would have found then.
pub proof fn lemma_lookup_runs_at_most_once(known: Resolution, finds: Seq<Option<FnAddress>>)
    ensures
        lookups_run(known, finds) <= 1,
        lookups_run(known, finds) == 1 <==> known is Unresolved && finds.len() > 0,
        finds.len() > 0 ==> known_after(known, finds) == spec_resolve(known, finds[0]),
        !(known is Unresolved) ==> known_after(known, finds) == known,
    decreases finds.len(),
{
    if finds.len() > 0 {
        lemma_lookup_runs_at_most_once(spec_resolve(known, finds[0]), finds.skip(1));
    }
}

/// Within one lookup each of the two calls is asked for at most once: the
/// library is loaded only while no module was answered, the symbol is
/// looked up only while no address was, and with both answers the lookup is
/// over.
pub proof fn lemma_probe_asks_once(library: &str, function: &str, replies: ProbeReplies)
    ensures
        spec_probe(library, function, replies) is LoadLibrary <==> replies.module is None,
        spec_probe(library, function, replies) is FindSymbol ==> replies.module is Some
            && replies.address is None,
        replies.module is Some && replies.address is Some ==> spec_probe(
            library,
            function,
            replies,
        ) is Done,
{
}

/// Resolving an entry point twice gives the outcome of the first time,
/// whatever the second lookup would have found, and an entry point that
/// was resolved never asks for a lookup again.
pub proof fn lemma_resolution_is_memoized(
    known: Resolution,
    first: Option<FnAddress>,
    second: Option<FnAddress>,
)
    ensures
        spec_resolve(spec_resolve(known, first), second) == spec_resolve(known, first),
        !(spec_resolve(known, first) is Unresolved),
        known is Unresolved ==> spec_resolve(known, first).address() == first,
{
}

/// Tests whether a string ends in the character zero.
pub fn ends_with_nul(s: &str) -> (terminated: bool)
    ensures
        terminated == is_nul_terminated(s@),
{
    let len = s.unicode_len();
    len > 0 && s.get_char(len - 1) == '\0'
}

/// Advances the lookup of an entry point by one step.
///
/// Both names must end in the character zero, as the system's calls read
/// them up to there. The result says which call to make next and with what,
/// or, once the answers suffice, the address found or that there is none.
/// A library or a symbol that is missing is an ordinary outcome.
pub fn get_function_impl<'a>(library: &'a str, function: &'a str, replies: ProbeReplies) -> (step:
    ProbeStep<'a>)
    requires
        is_nul_terminated(library@),
        is_nul_terminated(function@),
    ensures
        step == spec_probe(library, function, replies),
        step matches ProbeStep::Done(Some(address)) ==> address.raw != 0,
{
    match replies.module {
        None => ProbeStep::LoadLibrary { library },
        Some(module) => {
            if module == 0 {
                return ProbeStep::Done(None);
            }
            match replies.address {
                None => ProbeStep::FindSymbol { module, function },
                Some(address) => {
                    if address == 0 {
                        return ProbeStep::Done(None);
                    }
                    ProbeStep::Done(Some(FnAddress { raw: address }))
                },
            }
        },
    }
}

} // verus!
