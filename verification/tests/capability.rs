use window_metrics::capability::{
    ends_with_nul, get_function_impl, Capability, CapabilityCache, FnAddress, ProbeReplies,
    ProbeStep, Resolution,
};

const ALL: [Capability; 7] = [
    Capability::SetProcessDpiAware,
    Capability::SetProcessDpiAwareness,
    Capability::SetProcessDpiAwarenessContext,
    Capability::GetDpiForWindow,
    Capability::GetDpiForMonitor,
    Capability::EnableNonClientDpiScaling,
    Capability::AdjustWindowRectExForDpi,
];

#[test]
fn nul_termination_is_recognised() {
    assert!(ends_with_nul("user32.dll\0"));
    assert!(ends_with_nul("\0"));
    assert!(!ends_with_nul("user32.dll"));
    assert!(!ends_with_nul(""));
    assert!(!ends_with_nul("a\0b"));
}

#[test]
fn names_end_in_nul() {
    for capability in ALL {
        assert!(ends_with_nul(capability.library()));
        assert!(ends_with_nul(capability.symbol()));
    }
}

#[test]
fn names_are_those_of_the_system() {
    assert_eq!(Capability::SetProcessDpiAware.library(), "user32.dll\0");
    assert_eq!(Capability::SetProcessDpiAware.symbol(), "SetProcessDPIAware\0");
    assert_eq!(Capability::SetProcessDpiAwareness.library(), "shcore.dll\0");
    assert_eq!(Capability::SetProcessDpiAwareness.symbol(), "SetProcessDpiAwareness\0");
    assert_eq!(Capability::SetProcessDpiAwarenessContext.library(), "user32.dll\0");
    assert_eq!(
        Capability::SetProcessDpiAwarenessContext.symbol(),
        "SetProcessDpiAwarenessContext\0"
    );
    assert_eq!(Capability::GetDpiForWindow.library(), "user32.dll\0");
    assert_eq!(Capability::GetDpiForWindow.symbol(), "GetDpiForWindow\0");
    assert_eq!(Capability::GetDpiForMonitor.library(), "shcore.dll\0");
    assert_eq!(Capability::GetDpiForMonitor.symbol(), "GetDpiForMonitor\0");
    assert_eq!(Capability::EnableNonClientDpiScaling.library(), "user32.dll\0");
    assert_eq!(Capability::EnableNonClientDpiScaling.symbol(), "EnableNonClientDpiScaling\0");
    assert_eq!(Capability::AdjustWindowRectExForDpi.library(), "user32.dll\0");
    assert_eq!(Capability::AdjustWindowRectExForDpi.symbol(), "AdjustWindowRectExForDpi\0");
}

#[test]
fn a_lookup_starts_by_loading_the_library() {
    let step = get_function_impl(
        "user32.dll\0",
        "GetDpiForWindow\0",
        ProbeReplies { module: None, address: None },
    );
    assert_eq!(step, ProbeStep::LoadLibrary { library: "user32.dll\0" });
}

#[test]
fn a_missing_library_ends_the_lookup() {
    let step = get_function_impl(
        "shcore.dll\0",
        "GetDpiForMonitor\0",
        ProbeReplies { module: Some(0), address: None },
    );
    assert_eq!(step, ProbeStep::Done(None));
    let ignored = get_function_impl(
        "shcore.dll\0",
        "GetDpiForMonitor\0",
        ProbeReplies { module: Some(0), address: Some(0x7000) },
    );
    assert_eq!(ignored, ProbeStep::Done(None));
}

#[test]
fn a_loaded_library_is_searched_for_the_symbol() {
    let step = get_function_impl(
        "user32.dll\0",
        "GetDpiForWindow\0",
        ProbeReplies { module: Some(0x4000_0000), address: None },
    );
    assert_eq!(
        step,
        ProbeStep::FindSymbol { module: 0x4000_0000, function: "GetDpiForWindow\0" }
    );
}

#[test]
fn a_missing_symbol_ends_the_lookup() {
    let step = get_function_impl(
        "user32.dll\0",
        "GetDpiForWindow\0",
        ProbeReplies { module: Some(0x4000_0000), address: Some(0) },
    );
    assert_eq!(step, ProbeStep::Done(None));
}

#[test]
fn a_found_symbol_gives_its_address() {
    let step = get_function_impl(
        "user32.dll\0",
        "GetDpiForWindow\0",
        ProbeReplies { module: Some(0x4000_0000), address: Some(0x4000_1230) },
    );
    assert_eq!(step, ProbeStep::Done(Some(FnAddress { raw: 0x4000_1230 })));
}

#[test]
fn a_new_table_knows_nothing() {
    let cache = CapabilityCache::new();
    for capability in ALL {
        assert_eq!(cache.lookup(capability), Resolution::Unresolved);
    }
}

#[test]
fn the_first_outcome_is_kept() {
    let mut cache = CapabilityCache::new();
    let found = FnAddress { raw: 0x1000 };
    let other = FnAddress { raw: 0x2000 };
    assert_eq!(cache.resolve(Capability::GetDpiForWindow, Some(found)), Some(found));
    assert_eq!(cache.lookup(Capability::GetDpiForWindow), Resolution::Present(found));
    assert_eq!(cache.resolve(Capability::GetDpiForWindow, Some(other)), Some(found));
    assert_eq!(cache.resolve(Capability::GetDpiForWindow, None), Some(found));
    assert_eq!(cache.lookup(Capability::GetDpiForWindow), Resolution::Present(found));
}

#[test]
fn absence_is_kept_too() {
    let mut cache = CapabilityCache::new();
    assert_eq!(cache.resolve(Capability::GetDpiForMonitor, None), None);
    assert_eq!(cache.lookup(Capability::GetDpiForMonitor), Resolution::Absent);
    assert_eq!(
        cache.resolve(Capability::GetDpiForMonitor, Some(FnAddress { raw: 0x3000 })),
        None
    );
    assert_eq!(cache.lookup(Capability::GetDpiForMonitor), Resolution::Absent);
}

#[test]
fn resolving_one_entry_leaves_the_others() {
    for (i, capability) in ALL.iter().enumerate() {
        let mut cache = CapabilityCache::new();
        let found = FnAddress { raw: 0x1000 + i };
        assert_eq!(cache.resolve(*capability, Some(found)), Some(found));
        for other in ALL {
            if other == *capability {
                assert_eq!(cache.lookup(other), Resolution::Present(found));
            } else {
                assert_eq!(cache.lookup(other), Resolution::Unresolved);
            }
        }
    }
}

fn resolve_with(
    cache: &mut CapabilityCache,
    capability: Capability,
    module: usize,
    address: usize,
    calls: &mut Vec<String>,
) -> Option<FnAddress> {
    let mut replies = ProbeReplies { module: None, address: None };
    loop {
        match cache.resolve_step(capability, replies) {
            ProbeStep::LoadLibrary { library } => {
                calls.push(format!("load {}", library));
                replies.module = Some(module);
            }
            ProbeStep::FindSymbol { function, .. } => {
                calls.push(format!("find {}", function));
                replies.address = Some(address);
            }
            ProbeStep::Done(found) => return cache.resolve(capability, found),
        }
    }
}

#[test]
fn resolving_starts_the_lookup_of_an_unknown_entry() {
    let cache = CapabilityCache::new();
    let nothing = ProbeReplies { module: None, address: None };
    assert_eq!(
        cache.resolve_step(Capability::GetDpiForMonitor, nothing),
        ProbeStep::LoadLibrary { library: "shcore.dll\0" }
    );
    let loaded = ProbeReplies { module: Some(0x4000), address: None };
    assert_eq!(
        cache.resolve_step(Capability::GetDpiForMonitor, loaded),
        ProbeStep::FindSymbol { module: 0x4000, function: "GetDpiForMonitor\0" }
    );
    let found = ProbeReplies { module: Some(0x4000), address: Some(0x4444) };
    assert_eq!(
        cache.resolve_step(Capability::GetDpiForMonitor, found),
        ProbeStep::Done(Some(FnAddress { raw: 0x4444 }))
    );
}

#[test]
fn resolving_a_known_entry_asks_for_no_call() {
    let mut cache = CapabilityCache::new();
    let found = FnAddress { raw: 0x1000 };
    cache.resolve(Capability::GetDpiForWindow, Some(found));
    cache.resolve(Capability::GetDpiForMonitor, None);
    let answers = [
        ProbeReplies { module: None, address: None },
        ProbeReplies { module: Some(0), address: None },
        ProbeReplies { module: Some(0x4000), address: None },
        ProbeReplies { module: Some(0x4000), address: Some(0x9999) },
    ];
    for replies in answers {
        assert_eq!(
            cache.resolve_step(Capability::GetDpiForWindow, replies),
            ProbeStep::Done(Some(found))
        );
        assert_eq!(cache.resolve_step(Capability::GetDpiForMonitor, replies), ProbeStep::Done(None));
    }
}

#[test]
fn the_loader_is_called_once_for_many_resolves() {
    let mut cache = CapabilityCache::new();
    let mut calls = Vec::new();
    let mut answers = Vec::new();
    for round in 0..6usize {
        answers.push(resolve_with(
            &mut cache,
            Capability::GetDpiForWindow,
            0x4000,
            0x5000 + round,
            &mut calls,
        ));
    }
    assert_eq!(calls, vec!["load user32.dll\0".to_string(), "find GetDpiForWindow\0".to_string()]);
    assert_eq!(answers, vec![Some(FnAddress { raw: 0x5000 }); 6]);
}

#[test]
fn a_missing_library_is_not_loaded_again() {
    let mut cache = CapabilityCache::new();
    let mut calls = Vec::new();
    let first =
        resolve_with(&mut cache, Capability::SetProcessDpiAwareness, 0, 0x5000, &mut calls);
    let second =
        resolve_with(&mut cache, Capability::SetProcessDpiAwareness, 0x4000, 0x5000, &mut calls);
    assert_eq!(first, None);
    assert_eq!(second, None);
    assert_eq!(calls, vec!["load shcore.dll\0".to_string()]);
}

#[test]
fn a_real_lookup_is_asked_for_at_most_once() {
    let mut cache = CapabilityCache::new();
    let mut lookups = 0;
    let mut answers = Vec::new();
    for round in 0..5usize {
        let known = cache.lookup(Capability::AdjustWindowRectExForDpi);
        let answer = match known {
            Resolution::Unresolved => {
                lookups += 1;
                cache.resolve(
                    Capability::AdjustWindowRectExForDpi,
                    Some(FnAddress { raw: 0x5000 + round }),
                )
            }
            Resolution::Absent => None,
            Resolution::Present(address) => Some(address),
        };
        answers.push(answer);
    }
    assert_eq!(lookups, 1);
    assert_eq!(answers, vec![Some(FnAddress { raw: 0x5000 }); 5]);
}
