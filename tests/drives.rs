use vdisk_ctl::drives::{drive_letters, drive_type_name, show_mount};

#[test]
fn letters_from_mask() {
    assert_eq!(drive_letters(0), Vec::<char>::new());
    assert_eq!(drive_letters(0b1101), vec!['A', 'C', 'D']);
    assert_eq!(drive_letters(1 << 25), vec!['Z']);
    assert_eq!(drive_letters(u32::MAX).len(), 26);
    assert_eq!(drive_letters(1 << 26), Vec::<char>::new());
}

#[test]
fn drive_type_names() {
    assert_eq!(drive_type_name(0), "Unknown");
    assert_eq!(drive_type_name(1), "No root directory");
    assert_eq!(drive_type_name(2), "Removable");
    assert_eq!(drive_type_name(3), "Fixed");
    assert_eq!(drive_type_name(4), "Network");
    assert_eq!(drive_type_name(5), "CD-ROM");
    assert_eq!(drive_type_name(6), "RAM disk");
    assert_eq!(drive_type_name(7), "Unknown");
}

#[test]
fn mount_lines_shown() {
    assert!(show_mount(&vec!["/dev/sda1", "/", "ext4", "rw"]));
    assert!(show_mount(&vec!["tmpfs", "/run", "tmpfs"]));
    assert!(!show_mount(&vec!["proc", "/proc", "proc"]));
    assert!(!show_mount(&vec!["sysfs", "/sys/kernel", "sysfs"]));
    assert!(!show_mount(&vec!["/dev/sda1", "/"]));
    assert!(show_mount(&vec!["x", "/pro", "y"]));
}
