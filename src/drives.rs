use vstd::prelude::*;

verus! {

/// `mask` shifted right by `i` bits.
pub open spec fn shifted(mask: nat, i: nat) -> nat
    decreases i,
{
    if i == 0 {
        mask
    } else {
        shifted(mask, (i - 1) as nat) / 2
    }
}

/// Whether bit `i` of a logical-drive mask marks drive number `i` present.
pub open spec fn drive_present(mask: nat, i: nat) -> bool {
    shifted(mask, i) % 2 == 1
}

/// The letter of drive number `i` (0 is `A`).
pub open spec fn drive_letter(i: nat) -> char {
    ((65 + i) as u8) as char
}

/// The letters of the present drives among the first `n`, in order.
pub open spec fn drive_letters_upto(mask: nat, n: nat) -> Seq<char>
    decreases n,
{
    if n == 0 {
        Seq::empty()
    } else {
        drive_letters_upto(mask, (n - 1) as nat) + if drive_present(mask, (n - 1) as nat) {
            seq![drive_letter((n - 1) as nat)]
        } else {
            Seq::<char>::empty()
        }
    }
}

/// The letters `A` to `Z` of the drives that a logical-drive mask marks present.
pub fn drive_letters(mask: u32) -> (r: Vec<char>)
    ensures
        r@ == drive_letters_upto(mask as nat, 26),
{
    let mut out: Vec<char> = Vec::new();
    let mut m: u32 = mask;
    let mut i: u8 = 0;
    while i < 26
        invariant
            i <= 26,
            m == shifted(mask as nat, i as nat),
            out@ == drive_letters_upto(mask as nat, i as nat),
        decreases 26 - i,
    {
        if m % 2 == 1 {
            out.push((65u8 + i) as char);
        }
        m = m / 2;
        i = i + 1;
    }
    out
}

/// The name of a drive type, numbered as the Win32 `DRIVE_*` constants are:
/// 1 no root directory, 2 removable, 3 fixed, 4 remote, 5 CD-ROM, 6 RAM disk,
/// and anything else unknown.
pub open spec fn spec_drive_type_name(t: u32) -> Seq<char> {
    if t == 1 {
        "No root directory"@
    } else if t == 2 {
        "Removable"@
    } else if t == 3 {
        "Fixed"@
    } else if t == 4 {
        "Network"@
    } else if t == 5 {
        "CD-ROM"@
    } else if t == 6 {
        "RAM disk"@
    } else {
        "Unknown"@
    }
}

pub fn drive_type_name(t: u32) -> (r: &'static str)
    ensures
        r@ == spec_drive_type_name(t),
{
    if t == 1 {
        "No root directory"
    } else if t == 2 {
        "Removable"
    } else if t == 3 {
        "Fixed"
    } else if t == 4 {
        "Network"
    } else if t == 5 {
        "CD-ROM"
    } else if t == 6 {
        "RAM disk"
    } else {
        "Unknown"
    }
}

pub open spec fn has_prefix(s: Seq<char>, p: Seq<char>) -> bool {
    p.len() <= s.len() && s.subrange(0, p.len() as int) == p
}

fn starts_with(s: &str, p: &str) -> (r: bool)
    ensures
        r == has_prefix(s@, p@),
{
    let n = s.unicode_len();
    let k = p.unicode_len();
    if k > n {
        return false;
    }
    let mut i: usize = 0;
    while i < k
        invariant
            i <= k <= n,
            n == s@.len(),
            k == p@.len(),
            s@.subrange(0, i as int) == p@.subrange(0, i as int),
        decreases k - i,
    {
        if s.get_char(i) != p.get_char(i) {
            assert(s@.subrange(0, k as int)[i as int] != p@[i as int]);
            return false;
        }
        i = i + 1;
        assert(s@.subrange(0, i as int) =~= p@.subrange(0, i as int)) by {
            assert forall|j: int| 0 <= j < i implies s@.subrange(0, i as int)[j] == p@.subrange(
                0,
                i as int,
            )[j] by {
                if j < i - 1 {
                    assert(s@.subrange(0, i - 1)[j] == p@.subrange(0, i - 1)[j]);
                }
            }
        }
    }
    assert(p@.subrange(0, k as int) =~= p@);
    true
}

/// Whether a line of the mount table, split into its fields, is listed: it
/// has a device, a mount point and a file system type, and the mount point is
/// not under `/proc` or `/sys`.
pub open spec fn spec_show_mount(fields: Seq<Seq<char>>) -> bool {
    fields.len() >= 3 && !has_prefix(fields[1], "/proc"@) && !has_prefix(fields[1], "/sys"@)
}

pub fn show_mount(fields: &Vec<&str>) -> (r: bool)
    ensures
        r == spec_show_mount(fields@.map_values(|f: &str| f@)),
{
    if fields.len() < 3 {
        return false;
    }
    let mount_point = fields[1];
    !starts_with(mount_point, "/proc") && !starts_with(mount_point, "/sys")
}

} // verus!
