use mdbg_rs::error::DebugError;
use mdbg_rs::linux_maps::{get_load_addr, line_mapping};

const MAPS: &str = "\
555555554000-555555556000 r--p 00000000 08:01 1835023                    /home/u/prog
555555556000-555555558000 r-xp 00002000 08:01 1835023                    /home/u/prog
555555558000-555555559000 rw-p 00004000 08:01 1835023                    /home/u/prog
555555400000-555555401000 r--p 00000000 08:01 1835023                    /home/u/prog
7ffff7dd5000-7ffff7dfc000 r-xp 00000000 08:01 1837111                    /lib/x86_64-linux-gnu/ld-2.27.so
7ffffffde000-7ffffffff000 rw-p 00000000 00:00 0                          [stack]
7ffff7ff4000-7ffff7ff6000 rw-p 00000000 00:00 0
1000-2000 r-xp 00000000 08:01 77                                         /home/u/prog2
2000-3000 r-xp 00000000 08:01 78                                         /home/u/prog (deleted)
";

fn chars(s: &str) -> Vec<char> {
    s.chars().collect()
}

#[test]
fn load_address_is_the_lowest_start_of_the_executable() {
    assert_eq!(get_load_addr(Some(MAPS), "/home/u/prog"), Ok(0x555555400000));
    assert_eq!(get_load_addr(Some(MAPS), "/lib/x86_64-linux-gnu/ld-2.27.so"), Ok(0x7ffff7dd5000));
    assert_eq!(get_load_addr(Some(MAPS), "[stack]"), Ok(0x7ffffffde000));
}

#[test]
fn path_must_be_equal_not_contained() {
    assert_eq!(get_load_addr(Some(MAPS), "/home/u/prog2"), Ok(0x1000));
    assert_eq!(get_load_addr(Some(MAPS), "/home/u/prog (deleted)"), Ok(0x2000));
    assert_eq!(get_load_addr(Some(MAPS), "/home/u/pro"), Err(DebugError::NoMapping));
    assert_eq!(get_load_addr(Some(MAPS), "home/u/prog"), Err(DebugError::NoMapping));
    assert_eq!(get_load_addr(Some(MAPS), "prog"), Err(DebugError::NoMapping));
    assert_eq!(get_load_addr(Some(MAPS), "/home/u/.rog"), Err(DebugError::NoMapping));
}

#[test]
fn missing_executable_is_no_mapping() {
    assert_eq!(get_load_addr(Some(MAPS), "/bin/ls"), Err(DebugError::NoMapping));
    assert_eq!(get_load_addr(Some(""), "/bin/ls"), Err(DebugError::NoMapping));
}

#[test]
fn unread_map_is_unreadable() {
    assert_eq!(get_load_addr(None, "/home/u/prog"), Err(DebugError::MapsUnreadable));
}

#[test]
fn path_may_hold_spaces() {
    let maps = "400000-401000 r-xp 00000000 08:01 5   /opt/my app/bin\n";
    assert_eq!(get_load_addr(Some(maps), "/opt/my app/bin"), Ok(0x400000));
    assert_eq!(get_load_addr(Some(maps), "/opt/my"), Err(DebugError::NoMapping));
}

#[test]
fn line_mapping_reads_the_start_of_a_matching_line() {
    let path = chars("/bin/cat");
    let line = chars("00400000-0040c000 r-xp 00000000 08:01 12 /bin/cat");
    assert_eq!(line_mapping(&line, &path), Some(0x400000));
    let other = chars("00400000-0040c000 r-xp 00000000 08:01 12 /bin/dog");
    assert_eq!(line_mapping(&other, &path), None);
    let no_number = chars("-0040c000 r-xp 00000000 08:01 12 /bin/cat");
    assert_eq!(line_mapping(&no_number, &path), None);
    let not_hex = chars("zz-0040c000 r-xp 00000000 08:01 12 /bin/cat");
    assert_eq!(line_mapping(&not_hex, &path), None);
    let too_big = chars("10000000000000000-2 r-xp 00000000 08:01 12 /bin/cat");
    assert_eq!(line_mapping(&too_big, &path), None);
    let highest = chars("ffffffffffffffff-0 r-xp 00000000 08:01 12 /bin/cat");
    assert_eq!(line_mapping(&highest, &path), Some(u64::MAX));
    let short = chars("00400000-0040c000 r-xp /bin/cat");
    assert_eq!(line_mapping(&short, &path), None);
    assert_eq!(line_mapping(&chars(""), &path), None);
}
