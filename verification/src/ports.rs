//! Device kinds and their cosmetic names.
//!
//! A port is one of a closed set of kinds, with one naming rule per kind. A
//! USB device is named from its trimmed manufacturer and product
//! descriptors; with neither present it falls back to its numeric vendor and
//! product ids, written as four uppercase hexadecimal digits each. Names are
//! byte strings; the descriptors arrive as byte strings too.

use vstd::prelude::*;
use vstd::string::StrSliceExecFns;

verus! {

/// ASCII whitespace, as trimming sees it.
pub open spec fn is_space(b: u8) -> bool {
    b == 32 || b == 9 || b == 10 || b == 13
}

/// `s` without its leading whitespace.
pub open spec fn trim_front(s: Seq<u8>) -> Seq<u8>
    decreases s.len(),
{
    if s.len() > 0 && is_space(s.first()) {
        trim_front(s.drop_first())
    } else {
        s
    }
}

/// `s` without its trailing whitespace.
pub open spec fn trim_back(s: Seq<u8>) -> Seq<u8>
    decreases s.len(),
{
    if s.len() > 0 && is_space(s.last()) {
        trim_back(s.drop_last())
    } else {
        s
    }
}

/// `s` without leading and trailing whitespace.
pub open spec fn trimmed(s: Seq<u8>) -> Seq<u8> {
    trim_back(trim_front(s))
}

/// The bytes of an ASCII text, one per character.
pub open spec fn ascii_view(s: Seq<char>) -> Seq<u8> {
    Seq::new(s.len(), |i: int| s[i] as u8)
}

/// The uppercase hexadecimal digit for a value below sixteen.
pub open spec fn hex_digit(d: int) -> u8 {
    if d < 10 {
        (48 + d) as u8
    } else {
        (55 + d) as u8
    }
}

/// A sixteen-bit value as four uppercase hexadecimal digits.
pub open spec fn hex16(v: u16) -> Seq<u8> {
    seq![
        hex_digit(v as int / 4096 % 16),
        hex_digit(v as int / 256 % 16),
        hex_digit(v as int / 16 % 16),
        hex_digit(v as int % 16),
    ]
}

/// A descriptor as naming uses it: trimmed, and only if anything is left.
pub open spec fn visible(part: Option<Seq<u8>>) -> Option<Seq<u8>> {
    match part {
        Some(s) => if trimmed(s).len() > 0 {
            Some(trimmed(s))
        } else {
            None
        },
        None => None,
    }
}

/// The name of a USB device with neither descriptor: its numeric ids.
pub open spec fn usb_fallback(vid: u16, pid: u16) -> Seq<u8> {
    ascii_view("USB Serial (VID: 0x"@) + hex16(vid) + ascii_view(", PID: 0x"@) + hex16(pid)
        + ascii_view(")"@)
}

/// The name of a USB device: the trimmed manufacturer and product joined by
/// one space, whichever of them is present, or the numeric fallback.
pub open spec fn usb_name(
    vid: u16,
    pid: u16,
    manufacturer: Option<Seq<u8>>,
    product: Option<Seq<u8>>,
) -> Seq<u8> {
    match (visible(manufacturer), visible(product)) {
        (Some(m), Some(p)) => m + seq![32u8] + p,
        (Some(m), None) => m,
        (None, Some(p)) => p,
        (None, None) => usb_fallback(vid, pid),
    }
}

/// The abstract content of a port kind.
pub ghost enum PortKindView {
    Usb { vid: u16, pid: u16, manufacturer: Option<Seq<u8>>, product: Option<Seq<u8>> },
    Pci,
    Bluetooth,
    Unknown,
}

/// The label naming a kind, with a USB device's numeric ids spelled out.
pub open spec fn type_label(kind: PortKindView) -> Seq<u8> {
    match kind {
        PortKindView::Usb { vid, pid, .. } => ascii_view("USB - VID: "@) + hex16(vid)
            + ascii_view(", PID: "@) + hex16(pid),
        PortKindView::Pci => ascii_view("PCI"@),
        PortKindView::Bluetooth => ascii_view("Bluetooth"@),
        PortKindView::Unknown => ascii_view("Unknown"@),
    }
}

/// The human-readable device name of a kind.
pub open spec fn display_name(kind: PortKindView) -> Seq<u8> {
    match kind {
        PortKindView::Usb { vid, pid, manufacturer, product } => usb_name(
            vid,
            pid,
            manufacturer,
            product,
        ),
        PortKindView::Pci => ascii_view("PCI Serial Port"@),
        PortKindView::Bluetooth => ascii_view("Bluetooth Serial Port"@),
        PortKindView::Unknown => ascii_view("Unknown Serial Device"@),
    }
}

/// What kind of device stands behind a port: the closed set of transports,
/// with the descriptors a USB device carries.
#[derive(Debug)]
pub enum PortKind {
    Usb { vid: u16, pid: u16, manufacturer: Option<Vec<u8>>, product: Option<Vec<u8>> },
    Pci,
    Bluetooth,
    Unknown,
}

impl View for PortKind {
    type V = PortKindView;

    open spec fn view(&self) -> PortKindView {
        match self {
            PortKind::Usb { vid, pid, manufacturer, product } => PortKindView::Usb {
                vid: *vid,
                pid: *pid,
                manufacturer: manufacturer.deep_view(),
                product: product.deep_view(),
            },
            PortKind::Pci => PortKindView::Pci,
            PortKind::Bluetooth => PortKindView::Bluetooth,
            PortKind::Unknown => PortKindView::Unknown,
        }
    }
}

/// Whether trimming drops this byte.
fn is_space_byte(b: u8) -> (r: bool)
    ensures
        r == is_space(b),
{
    b == 32 || b == 9 || b == 10 || b == 13
}

/// A copy of `s` without leading and trailing ASCII whitespace.
pub fn trim_bytes(s: &Vec<u8>) -> (r: Vec<u8>)
    ensures
        r@ == trimmed(s@),
{
    let mut start: usize = 0;
    proof {
        assert(s@.skip(0) =~= s@);
    }
    while start < s.len() && is_space_byte(s[start])
        invariant
            start <= s.len(),
            trim_front(s@) == trim_front(s@.skip(start as int)),
        decreases s.len() - start,
    {
        proof {
            assert(s@.skip(start as int).first() == s@[start as int]);
            assert(s@.skip(start as int).drop_first() =~= s@.skip(start as int + 1));
        }
        start = start + 1;
    }
    proof {
        if start == s.len() {
            assert(s@.skip(start as int) =~= Seq::<u8>::empty());
        }
        assert(trim_front(s@.skip(start as int)) == s@.skip(start as int));
        assert(s@.subrange(start as int, s@.len() as int) =~= s@.skip(start as int));
    }
    let mut end: usize = s.len();
    while end > start && is_space_byte(s[end - 1])
        invariant
            start <= end <= s.len(),
            trim_back(s@.skip(start as int)) == trim_back(s@.subrange(start as int, end as int)),
        decreases end,
    {
        proof {
            let cur = s@.subrange(start as int, end as int);
            assert(cur.last() == s@[end - 1]);
            assert(cur.drop_last() =~= s@.subrange(start as int, end - 1));
        }
        end = end - 1;
    }
    proof {
        if end == start {
            assert(s@.subrange(start as int, end as int) =~= Seq::<u8>::empty());
        }
        assert(trim_back(s@.subrange(start as int, end as int)) == s@.subrange(
            start as int,
            end as int,
        ));
    }
    let mut r: Vec<u8> = Vec::new();
    let mut k: usize = start;
    while k < end
        invariant
            start <= k <= end <= s.len(),
            r@ == s@.subrange(start as int, k as int),
        decreases end - k,
    {
        r.push(s[k]);
        proof {
            assert(s@.subrange(start as int, k + 1) =~= s@.subrange(start as int, k as int).push(
                s@[k as int],
            ));
        }
        k = k + 1;
    }
    r
}

/// The uppercase hexadecimal digit of a value below sixteen.
fn hex_digit_byte(d: u8) -> (c: u8)
    requires
        d < 16,
    ensures
        c == hex_digit(d as int),
{
    if d < 10 {
        48 + d
    } else {
        55 + d
    }
}

/// A sixteen-bit value as four uppercase hexadecimal digits.
pub fn hex16_bytes(v: u16) -> (r: Vec<u8>)
    ensures
        r@ == hex16(v),
{
    let mut r: Vec<u8> = Vec::new();
    r.push(hex_digit_byte((v / 4096 % 16) as u8));
    r.push(hex_digit_byte((v / 256 % 16) as u8));
    r.push(hex_digit_byte((v / 16 % 16) as u8));
    r.push(hex_digit_byte((v % 16) as u8));
    proof {
        assert(r@ =~= hex16(v));
    }
    r
}

/// The bytes of an ASCII text, one per character.
fn ascii_bytes(s: &str) -> (r: Vec<u8>)
    requires
        vstd::string::is_ascii(s),
    ensures
        r@ == ascii_view(s@),
{
    broadcast use vstd::string::is_ascii_spec_bytes;

    let r = s.as_bytes_vec();
    proof {
        assert(r@ =~= ascii_view(s@));
    }
    r
}

/// A descriptor as naming uses it: trimmed, kept only if anything is left.
fn visible_part(part: &Option<Vec<u8>>) -> (r: Option<Vec<u8>>)
    ensures
        r.deep_view() == visible(part.deep_view()),
{
    match part {
        Some(s) => {
            proof {
                assert(part.deep_view() == Some(s@));
            }
            let t = trim_bytes(s);
            if t.len() > 0 {
                let r = Some(t);
                proof {
                    assert(r.deep_view() == Some(t@));
                }
                r
            } else {
                None
            }
        },
        None => None,
    }
}

/// The name of a USB device, as [`usb_name`] says: the trimmed descriptors
/// joined by a space, or the numeric fallback when both are missing or
/// blank.
pub fn usb_device_name(
    vid: u16,
    pid: u16,
    manufacturer: &Option<Vec<u8>>,
    product: &Option<Vec<u8>>,
) -> (name: Vec<u8>)
    ensures
        name@ == usb_name(vid, pid, manufacturer.deep_view(), product.deep_view()),
{
    let mfg = visible_part(manufacturer);
    let prod = visible_part(product);
    match (mfg, prod) {
        (Some(m), Some(p)) => {
            let mut name = m;
            name.push(32);
            let mut p = p;
            name.append(&mut p);
            proof {
                assert(name@ =~= usb_name(
                    vid,
                    pid,
                    manufacturer.deep_view(),
                    product.deep_view(),
                ));
            }
            name
        },
        (Some(m), None) => m,
        (None, Some(p)) => p,
        (None, None) => {
            proof {
                reveal_strlit("USB Serial (VID: 0x");
                reveal_strlit(", PID: 0x");
                reveal_strlit(")");
            }
            let mut name = ascii_bytes("USB Serial (VID: 0x");
            let mut vid_hex = hex16_bytes(vid);
            name.append(&mut vid_hex);
            let mut middle = ascii_bytes(", PID: 0x");
            name.append(&mut middle);
            let mut pid_hex = hex16_bytes(pid);
            name.append(&mut pid_hex);
            let mut close = ascii_bytes(")");
            name.append(&mut close);
            proof {
                assert(name@ =~= usb_fallback(vid, pid));
            }
            name
        },
    }
}

/// The label naming the port's kind.
pub fn port_type_label(kind: &PortKind) -> (label: Vec<u8>)
    ensures
        label@ == type_label(kind@),
{
    match kind {
        PortKind::Usb { vid, pid, .. } => {
            proof {
                reveal_strlit("USB - VID: ");
                reveal_strlit(", PID: ");
            }
            let mut label = ascii_bytes("USB - VID: ");
            let mut vid_hex = hex16_bytes(*vid);
            label.append(&mut vid_hex);
            let mut middle = ascii_bytes(", PID: ");
            label.append(&mut middle);
            let mut pid_hex = hex16_bytes(*pid);
            label.append(&mut pid_hex);
            proof {
                assert(label@ =~= type_label(kind@));
            }
            label
        },
        PortKind::Pci => {
            proof {
                reveal_strlit("PCI");
            }
            ascii_bytes("PCI")
        },
        PortKind::Bluetooth => {
            proof {
                reveal_strlit("Bluetooth");
            }
            ascii_bytes("Bluetooth")
        },
        PortKind::Unknown => {
            proof {
                reveal_strlit("Unknown");
            }
            ascii_bytes("Unknown")
        },
    }
}

/// The human-readable name of the device behind the port.
pub fn device_name(kind: &PortKind) -> (name: Vec<u8>)
    ensures
        name@ == display_name(kind@),
{
    match kind {
        PortKind::Usb { vid, pid, manufacturer, product } => usb_device_name(
            *vid,
            *pid,
            manufacturer,
            product,
        ),
        PortKind::Pci => {
            proof {
                reveal_strlit("PCI Serial Port");
            }
            ascii_bytes("PCI Serial Port")
        },
        PortKind::Bluetooth => {
            proof {
                reveal_strlit("Bluetooth Serial Port");
            }
            ascii_bytes("Bluetooth Serial Port")
        },
        PortKind::Unknown => {
            proof {
                reveal_strlit("Unknown Serial Device");
            }
            ascii_bytes("Unknown Serial Device")
        },
    }
}

} // verus!
