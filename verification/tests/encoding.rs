use proc_core::args::get_args;
use proc_core::args::get_envs;
use proc_core::ctl::ARCH_GET_FS;
use proc_core::ctl::ARCH_GET_GS;
use proc_core::ctl::ARCH_SET_CPUID;
use proc_core::ctl::ARCH_SET_FS;
use proc_core::ctl::ARCH_SET_GS;
use proc_core::ctl::AT_REMOVEDIR;
use proc_core::ctl::ArchPrctlPlan;
use proc_core::ctl::Kstat;
use proc_core::ctl::UnlinkPlan;
use proc_core::ctl::arch_prctl_plan;
use proc_core::ctl::unlinkat_plan;
use proc_core::ctl::MountPlan;
use proc_core::ctl::mount_plan;
use proc_core::dirent::DIRENT_FIXED_SIZE;
use proc_core::dirent::DirBuffer;
use proc_core::dirent::DirEnt;
use proc_core::dirent::FileType;
use proc_core::dirent::scan_dir_buffer;

fn strings(args: Vec<Vec<u8>>) -> Vec<String> {
    args.into_iter()
        .map(|a| String::from_utf8(a).unwrap())
        .collect()
}

#[test]
fn args_split_on_spaces() {
    let got = strings(get_args(b"hello world"));
    assert_eq!(got, vec!["hello".to_string(), "world".to_string()]);
}

#[test]
fn args_keep_quoted_spaces() {
    let got = strings(get_args(b"run \"a b\" c"));
    assert_eq!(
        got,
        vec!["run".to_string(), "\"a b\"".to_string(), "c".to_string()]
    );
}

#[test]
fn args_drop_empty_pieces() {
    let got = strings(get_args(b"  a   b  "));
    assert_eq!(got, vec!["a".to_string(), "b".to_string()]);
}

#[test]
fn args_of_empty_line_are_empty() {
    assert_eq!(get_args(b"").len(), 0);
    assert_eq!(get_args(b"   ").len(), 0);
}

#[test]
fn args_with_unclosed_quote_swallow_the_rest() {
    let got = strings(get_args(b"a \"b c"));
    assert_eq!(got, vec!["a".to_string(), "\"b c".to_string()]);
}

#[test]
fn envs_start_with_the_fixed_list() {
    let envs = get_envs(None);
    assert_eq!(envs.len(), 10);
    assert_eq!(envs[0], "SHLVL=1");
    assert_eq!(envs[1], "PWD=/");
    assert_eq!(envs[8], "LD_DEBUG=files");
    assert_eq!(envs[9], "PATH=/usr/sbin:/usr/bin:/sbin:/bin");
}

#[test]
fn envs_take_the_environment_file_when_read() {
    let envs = get_envs(Some("PATH=/opt/bin".to_string()));
    assert_eq!(envs.len(), 10);
    assert_eq!(envs[9], "PATH=/opt/bin");
}

#[test]
fn dirent_new_packs_its_fields() {
    let e = DirEnt::new(3, 42, 24, FileType::Dir);
    assert_eq!(e.d_ino, 3);
    assert_eq!(e.d_off, 42);
    assert_eq!(e.d_reclen, 24);
    assert_eq!(e.d_type, 4);
}

#[test]
fn file_type_codes_match_the_encoding() {
    assert_eq!(FileType::Unknown.code(), 0);
    assert_eq!(FileType::Fifo.code(), 1);
    assert_eq!(FileType::Chr.code(), 2);
    assert_eq!(FileType::Dir.code(), 4);
    assert_eq!(FileType::Blk.code(), 6);
    assert_eq!(FileType::Reg.code(), 8);
    assert_eq!(FileType::Lnk.code(), 10);
    assert_eq!(FileType::Socket.code(), 12);
    assert_eq!(FileType::Wht.code(), 14);
}

#[test]
fn file_type_from_dir_entry_flags() {
    assert_eq!(FileType::from_dir_entry(true, false).code(), 4);
    assert_eq!(FileType::from_dir_entry(false, true).code(), 8);
    assert_eq!(FileType::from_dir_entry(false, false).code(), 0);
}

#[test]
fn dir_buffer_tracks_remaining_space() {
    let b = DirBuffer::new(vec![0u8; 64]);
    assert_eq!(b.remaining_space(), 64);
    assert!(b.can_fit_entry(64));
    assert!(!b.can_fit_entry(65));
}

#[test]
fn write_entry_lays_out_header_and_name() {
    let mut b = DirBuffer::new(vec![0xaa; 64]);
    let name = b"hello";
    let size = DIRENT_FIXED_SIZE + name.len();
    let e = DirEnt::new(1, size as i64, size, FileType::Reg);
    b.write_entry(e, name).unwrap();
    assert_eq!(b.offset, size);
    let bytes = b.into_bytes();
    // inode 1, little endian
    assert_eq!(&bytes[0..8], &[1, 0, 0, 0, 0, 0, 0, 0]);
    // next-entry offset 24
    assert_eq!(&bytes[8..16], &[24, 0, 0, 0, 0, 0, 0, 0]);
    // record length 24, type tag 8
    assert_eq!(&bytes[16..18], &[24, 0]);
    assert_eq!(bytes[18], 8);
    assert_eq!(&bytes[19..24], b"hello");
    // the rest of the buffer is untouched
    assert_eq!(bytes[24], 0xaa);
}

#[test]
fn write_entry_refuses_what_does_not_fit() {
    let mut b = DirBuffer::new(vec![0u8; 20]);
    let name = b"toolong";
    let size = DIRENT_FIXED_SIZE + name.len();
    let e = DirEnt::new(1, size as i64, size, FileType::Reg);
    assert!(b.write_entry(e, name).is_err());
    assert_eq!(b.offset, 0);
}

#[test]
fn terminal_entry_keeps_the_offset() {
    let mut b = DirBuffer::new(vec![0u8; 64]);
    let name = b"a";
    let size = DIRENT_FIXED_SIZE + name.len();
    let e = DirEnt::new(1, size as i64, size, FileType::Reg);
    b.write_entry(e, name).unwrap();
    let terminal = DirEnt::new(1, size as i64, 0, FileType::Reg);
    b.write_entry(terminal, b"").unwrap();
    assert_eq!(b.offset, size);
}

#[test]
fn scan_resumes_after_well_formed_entries() {
    let mut b = DirBuffer::new(vec![0u8; 64]);
    let s1 = DIRENT_FIXED_SIZE + 1;
    b.write_entry(DirEnt::new(1, s1 as i64, s1, FileType::Reg), b"a")
        .unwrap();
    let s2 = DIRENT_FIXED_SIZE + 2;
    b.write_entry(
        DirEnt::new(1, (s1 + s2) as i64, s2, FileType::Dir),
        b"bc",
    )
    .unwrap();
    let bytes = b.into_bytes();
    assert_eq!(scan_dir_buffer(&bytes), Some((s1 + s2, 2)));
}

#[test]
fn scan_of_a_fresh_buffer_finds_nothing() {
    assert_eq!(scan_dir_buffer(&[0u8; 64]), Some((0, 0)));
    assert_eq!(scan_dir_buffer(&[0u8; 10]), Some((0, 0)));
}

#[test]
fn scan_rejects_a_mismatched_next_offset() {
    let mut b = DirBuffer::new(vec![0u8; 64]);
    let s1 = DIRENT_FIXED_SIZE + 1;
    // The next-entry offset disagrees with the record length.
    b.write_entry(DirEnt::new(1, 99, s1, FileType::Reg), b"a")
        .unwrap();
    let bytes = b.into_bytes();
    assert_eq!(scan_dir_buffer(&bytes), None);
}

#[test]
fn arch_prctl_decodes_the_known_codes() {
    assert_eq!(arch_prctl_plan(ARCH_SET_FS, 7), ArchPrctlPlan::WriteFsBase(7));
    assert_eq!(arch_prctl_plan(ARCH_GET_FS, 8), ArchPrctlPlan::ReadFsBase(8));
    assert_eq!(arch_prctl_plan(ARCH_SET_GS, 9), ArchPrctlPlan::WriteGsBase(9));
    assert_eq!(arch_prctl_plan(ARCH_GET_GS, 10), ArchPrctlPlan::ReadGsBase(10));
    assert_eq!(arch_prctl_plan(ARCH_SET_CPUID, 1), ArchPrctlPlan::Unsupported);
    assert_eq!(arch_prctl_plan(0, 0), ArchPrctlPlan::Unsupported);
}

#[test]
fn unlink_decision_follows_flags_and_kind() {
    assert_eq!(unlinkat_plan(AT_REMOVEDIR, true), UnlinkPlan::RemoveDirectory);
    assert_eq!(unlinkat_plan(AT_REMOVEDIR, false), UnlinkPlan::RemoveDirectory);
    assert_eq!(unlinkat_plan(0, true), UnlinkPlan::RefuseDirectory);
    assert_eq!(unlinkat_plan(0, false), UnlinkPlan::RemoveFile);
}

#[test]
fn kstat_default_is_all_zero() {
    let k = Kstat::default();
    assert_eq!(k.st_ino, 0);
    assert_eq!(k.st_size, 0);
    assert_eq!(k.st_mode, 0);
    assert_eq!(k.st_atime_sec, 0);
}

#[test]
fn fill_lays_out_entries_and_a_terminal_record() {
    let entries = vec![
        proc_core::dirent::DirEntryInfo {
            name: b"a".to_vec(),
            ftype: FileType::Reg,
        },
        proc_core::dirent::DirEntryInfo {
            name: b"bc".to_vec(),
            ftype: FileType::Dir,
        },
    ];
    let mut b = DirBuffer::new(vec![0xaa; 64]);
    let total = proc_core::dirent::getdents_fill(&mut b, &entries, 0, 0);
    // "a" takes 19 + 2 bytes, "bc" takes 19 + 3.
    assert_eq!(total, 43);
    assert_eq!(b.offset, 43);
    let bytes = b.into_bytes();
    // First record: name "a" with its terminator, next-entry offset 21.
    assert_eq!(&bytes[8..16], &[21, 0, 0, 0, 0, 0, 0, 0]);
    assert_eq!(&bytes[16..18], &[21, 0]);
    assert_eq!(bytes[18], 8);
    assert_eq!(&bytes[19..21], b"a\0");
    // Second record: name "bc", next-entry offset 43, directory tag.
    assert_eq!(&bytes[29..37], &[43, 0, 0, 0, 0, 0, 0, 0]);
    assert_eq!(&bytes[37..39], &[22, 0]);
    assert_eq!(bytes[39], 4);
    assert_eq!(&bytes[40..43], b"bc\0");
    // Terminal record: zero record length, offsets frozen.
    assert_eq!(&bytes[43 + 16..43 + 18], &[0, 0]);
    // The filled buffer scans back to where the fill stopped.
    assert_eq!(scan_dir_buffer(&bytes), Some((43, 2)));
}

#[test]
fn fill_skips_already_delivered_entries() {
    let entries = vec![
        proc_core::dirent::DirEntryInfo {
            name: b"first".to_vec(),
            ftype: FileType::Reg,
        },
        proc_core::dirent::DirEntryInfo {
            name: b"second".to_vec(),
            ftype: FileType::Reg,
        },
    ];
    let mut b = DirBuffer::new(vec![0u8; 64]);
    let total = proc_core::dirent::getdents_fill(&mut b, &entries, 1, 25);
    // Only "second" is laid in: 19 + 7 bytes on top of the resume offset.
    assert_eq!(total, 25 + 26);
    assert_eq!(b.offset, 26);
    let bytes = b.into_bytes();
    assert_eq!(&bytes[19..26], b"second\0");
    // Its next-entry offset continues the earlier call's numbering.
    assert_eq!(&bytes[8..16], &[51, 0, 0, 0, 0, 0, 0, 0]);
}

#[test]
fn fill_stops_at_the_first_entry_that_does_not_fit() {
    let entries = vec![
        proc_core::dirent::DirEntryInfo {
            name: b"a".to_vec(),
            ftype: FileType::Reg,
        },
        proc_core::dirent::DirEntryInfo {
            name: b"bc".to_vec(),
            ftype: FileType::Reg,
        },
    ];
    let mut b = DirBuffer::new(vec![0u8; 30]);
    let total = proc_core::dirent::getdents_fill(&mut b, &entries, 0, 0);
    assert_eq!(total, 21);
    assert_eq!(b.offset, 21);
    // Nine bytes remain: no room for the terminal header either.
    let bytes = b.into_bytes();
    assert_eq!(&bytes[21 + 0..30], &[0u8; 9]);
}

#[test]
fn fill_of_nothing_touches_nothing() {
    let mut b = DirBuffer::new(vec![0xaa; 32]);
    let total = proc_core::dirent::getdents_fill(&mut b, &Vec::new(), 0, 0);
    assert_eq!(total, 0);
    assert_eq!(b.offset, 0);
    assert_eq!(b.into_bytes(), vec![0xaa; 32]);
}

#[test]
fn mount_decision_checks_device_and_filesystem_type() {
    assert_eq!(mount_plan(true, b"vfat"), MountPlan::RefuseDeviceDirectory);
    assert_eq!(mount_plan(false, b"ext4"), MountPlan::RefuseFilesystemType);
    assert_eq!(mount_plan(false, b""), MountPlan::RefuseFilesystemType);
    assert_eq!(mount_plan(false, b"vfat"), MountPlan::Proceed);
}
