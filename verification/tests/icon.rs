use window_metrics::icon::{
    get_hicon_from_buffer, IconHandle, IconReplies, IconStep, ICON_VERSION, LR_DEFAULTCOLOR,
};

fn directory() -> Vec<u8> {
    let mut bytes = vec![0u8, 0, 1, 0, 1, 0];
    bytes.extend_from_slice(&[32, 32, 0, 0, 1, 0, 32, 0, 40, 0, 0, 0, 22, 0, 0, 0]);
    bytes.extend_from_slice(&[0u8; 40]);
    bytes
}

fn nothing_yet() -> IconReplies {
    IconReplies { lookup: None, created: None }
}

#[test]
fn an_empty_buffer_gives_no_icon() {
    assert_eq!(get_hicon_from_buffer(&[], 32, 32, nothing_yet()), IconStep::Done(None));
    assert_eq!(
        get_hicon_from_buffer(&[], 32, 32, IconReplies { lookup: Some(22), created: Some(9) }),
        IconStep::Done(None)
    );
}

#[test]
fn the_directory_is_looked_up_first() {
    assert_eq!(
        get_hicon_from_buffer(&directory(), 32, 48, nothing_yet()),
        IconStep::Lookup { icon: true, width: 32, height: 48, flags: LR_DEFAULTCOLOR }
    );
}

#[test]
fn a_corrupted_directory_gives_no_icon() {
    let mut bytes = directory();
    bytes[0] = 0xFF;
    bytes[2] = 0x7F;
    let refused = IconReplies { lookup: Some(0), created: None };
    assert_eq!(get_hicon_from_buffer(&bytes, 32, 32, refused), IconStep::Done(None));
}

#[test]
fn a_place_outside_the_buffer_gives_no_icon() {
    let bytes = directory();
    let len = bytes.len() as i32;
    for lookup in [-1, i32::MIN, len, len + 1, i32::MAX] {
        let replies = IconReplies { lookup: Some(lookup), created: None };
        assert_eq!(get_hicon_from_buffer(&bytes, 32, 32, replies), IconStep::Done(None));
    }
}

#[test]
fn the_icon_is_made_from_the_bytes_at_the_place_found() {
    let bytes = directory();
    let replies = IconReplies { lookup: Some(22), created: None };
    assert_eq!(
        get_hicon_from_buffer(&bytes, 32, 32, replies),
        IconStep::Create {
            offset: 22,
            size: 40,
            icon: true,
            version: 0x0003_0000,
            width: 0,
            height: 0,
            flags: 0,
        }
    );
    assert_eq!(ICON_VERSION, 0x0003_0000);
}

#[test]
fn the_size_handed_on_ends_with_the_buffer() {
    let bytes = directory();
    for place in [1usize, 6, 22, 61] {
        let replies = IconReplies { lookup: Some(place as i32), created: None };
        match get_hicon_from_buffer(&bytes, 32, 32, replies) {
            IconStep::Create { offset, size, .. } => {
                assert_eq!(offset, place);
                assert_eq!(size as usize, bytes.len() - place);
                assert_eq!(bytes[offset..].len(), size as usize);
            }
            other => panic!("no creation asked for: {:?}", other),
        }
    }
}

#[test]
fn a_failed_creation_gives_no_icon() {
    let replies = IconReplies { lookup: Some(22), created: Some(0) };
    assert_eq!(get_hicon_from_buffer(&directory(), 32, 32, replies), IconStep::Done(None));
}

#[test]
fn a_created_icon_is_handed_out() {
    let replies = IconReplies { lookup: Some(22), created: Some(0x00AB_0001) };
    assert_eq!(
        get_hicon_from_buffer(&directory(), 32, 32, replies),
        IconStep::Done(Some(IconHandle { raw: 0x00AB_0001 }))
    );
}

#[test]
fn a_decoding_takes_two_calls() {
    let bytes = directory();
    let mut replies = nothing_yet();
    let mut calls = 0;
    let icon = loop {
        match get_hicon_from_buffer(&bytes, 16, 16, replies) {
            IconStep::Lookup { .. } => {
                calls += 1;
                replies.lookup = Some(22);
            }
            IconStep::Create { offset, size, .. } => {
                calls += 1;
                assert!(offset < bytes.len());
                assert!(size as usize <= bytes.len() - offset);
                replies.created = Some(0x77);
            }
            IconStep::Done(icon) => break icon,
        }
    };
    assert_eq!(calls, 2);
    assert_eq!(icon, Some(IconHandle { raw: 0x77 }));
}
