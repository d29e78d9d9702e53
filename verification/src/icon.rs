//! From an icon directory held in memory to an icon of the system: the
//! lookup of the best image in the directory, then the making of the icon
//! from the bytes of that image.

use vstd::prelude::*;

verus! {

/// The colour flag handed to both calls: the default colours.
pub const LR_DEFAULTCOLOR: u32 = 0;

/// The version of the icon format that the bytes are read as.
pub const ICON_VERSION: u32 = 0x0003_0000;

/// An icon of the system, named by the number the system gave it. It is
/// never zero.
#[derive(Clone, Copy, Debug, PartialEq, Eq, Structural)]
pub struct IconHandle {
    pub raw: usize,
}

/// What the system answered so far during one decoding.
#[derive(Clone, Copy, Debug, PartialEq, Eq, Structural)]
pub struct IconReplies {
    /// What the directory lookup gave: the place of the chosen image in
    /// the buffer, or zero where it found none.
    pub lookup: Option<i32>,
    /// What making the icon gave; zero where it failed.
    pub created: Option<usize>,
}

/// What a decoding does next.
#[derive(Clone, Copy, Debug, PartialEq, Eq, Structural)]
pub enum IconStep {
    /// Look in the directory, which is the whole buffer, for the image
    /// that fits the wanted size best.
    Lookup { icon: bool, width: i32, height: i32, flags: u32 },
    /// Make an icon from the `size` bytes of the buffer that start at
    /// `offset`.
    Create {
        offset: usize,
        size: u32,
        icon: bool,
        version: u32,
        width: i32,
        height: i32,
        flags: u32,
    },
    /// The decoding is over, with an icon or without.
    Done(Option<IconHandle>),
}

/// The greatest number of bytes that the system's 32-bit size word can
/// tell of.
pub const MAX_RESOURCE_SIZE: u32 = 0xFFFF_FFFF;

/// The number of bytes of a resource as the system's 32-bit size word holds
/// it: the number itself, or the greatest the word can hold where there are
/// more bytes than that.
pub open spec fn size_word(len: nat) -> u32 {
    if len <= MAX_RESOURCE_SIZE {
        len as u32
    } else {
        MAX_RESOURCE_SIZE
    }
}

/// Whether the directory lookup named a place inside a buffer of `len`
/// bytes: not zero, which stands for "none found", and not outside.
pub open spec fn lookup_in_buffer(len: nat, lookup: i32) -> bool {
    0 < lookup < len
}

/// The next step of a decoding, given the buffer's length, the wanted size
/// and the answers so far.
///
/// An empty buffer ends it at once. Otherwise the directory is looked up; a
/// lookup that names no place inside the buffer ends it; else the icon is
/// made from the bytes that lie between that place and the end of the
/// buffer, and a zero answer to that ends it without an icon too.
pub open spec fn spec_icon_step(len: nat, width: i32, height: i32, replies: IconReplies)
    -> IconStep {
    if len == 0 {
        IconStep::Done(None)
    } else {
        match replies.lookup {
            None => IconStep::Lookup { icon: true, width, height, flags: LR_DEFAULTCOLOR },
            Some(lookup) => if !lookup_in_buffer(len, lookup) {
                IconStep::Done(None)
            } else {
                match replies.created {
                    None => IconStep::Create {
                        offset: lookup as usize,
                        size: size_word((len - lookup) as nat),
                        icon: true,
                        version: ICON_VERSION,
                        width: 0,
                        height: 0,
                        flags: LR_DEFAULTCOLOR,
                    },
                    Some(raw) => if raw == 0 {
                        IconStep::Done(None)
                    } else {
                        IconStep::Done(Some(IconHandle { raw }))
                    },
                }
            },
        }
    }
}

/// Advances the decoding of an icon directory by one step.
///
/// The result is the next call to make on the buffer, or, once the answers
/// suffice, the icon. Every failure on the way ends in `Done(None)`: an
/// empty or malformed buffer gives no icon, and nothing is tried twice.
pub fn get_hicon_from_buffer(buffer: &[u8], width: i32, height: i32, replies: IconReplies) -> (step:
    IconStep)
    ensures
        step == spec_icon_step(buffer@.len(), width, height, replies),
        buffer@.len() == 0 ==> step == IconStep::Done(None),
        replies.lookup == Some(0i32) ==> step == IconStep::Done(None),
        step matches IconStep::Create { offset, size, .. } ==> 0 < offset < buffer@.len() && 0
            < size <= buffer@.len() - offset,
        step matches IconStep::Done(Some(icon)) ==> icon.raw != 0,
{
    let len = buffer.len();
    if len == 0 {
        return IconStep::Done(None);
    }
    let lookup = match replies.lookup {
        None => {
            return IconStep::Lookup { icon: true, width, height, flags: LR_DEFAULTCOLOR };
        },
        Some(lookup) => lookup,
    };
    if lookup <= 0 {
        return IconStep::Done(None);
    }
    let offset = lookup as usize;
    if offset >= len {
        return IconStep::Done(None);
    }
    let rest = len - offset;
    let size: u32 = if rest <= MAX_RESOURCE_SIZE as usize {
        rest as u32
    } else {
        MAX_RESOURCE_SIZE
    };
    match replies.created {
        None => IconStep::Create {
            offset,
            size,
            icon: true,
            version: ICON_VERSION,
            width: 0,
            height: 0,
            flags: LR_DEFAULTCOLOR,
        },
        Some(raw) => {
            if raw == 0 {
                IconStep::Done(None)
            } else {
                IconStep::Done(Some(IconHandle { raw }))
            }
        },
    }
}

} // verus!
