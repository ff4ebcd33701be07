use emu_studio::android::avd_config::hw_keyboard_fix;
use emu_studio::android::inspect::{
    decode_hex_addr, parse_battery_level, parse_df_data, parse_ip_addr, parse_pm_list_packages_u,
    parse_proc_net,
};
use emu_studio::android::provider::{gpu_mode, image_dir};
use emu_studio::model::emulator::Graphics;
use emu_studio::model::image::{Abi, ImageCoord, ImageType};

fn coord() -> ImageCoord {
    ImageCoord::new(34, ImageType::Default, Abi::X86_64)
}

#[test]
fn image_dir_mirrors_the_package_path() {
    assert_eq!(image_dir("/sdk", coord()), "/sdk/system-images/android-34/default/x86_64");
}

#[test]
fn gpu_mode_values_match_the_docs() {
    assert_eq!(gpu_mode(Graphics::Auto), "auto");
    assert_eq!(gpu_mode(Graphics::Host), "host");
    assert_eq!(gpu_mode(Graphics::SwiftshaderIndirect), "swiftshader_indirect");
}

#[test]
fn parse_battery_level_reads_the_dumpsys_line() {
    let dumpsys = "Current Battery Service state:\n  AC powered: false\n  level: 87\n  scale: 100\n  temperature: 250\n";
    assert_eq!(parse_battery_level(dumpsys), Some(87));
    assert_eq!(parse_battery_level("no battery block here"), None);
}

#[test]
fn parse_df_data_reads_available_and_total_in_mb() {
    // `df /data` on a real emulator, 1 KiB blocks.
    let df = "Filesystem     1K-blocks   Used Available Use% Mounted on\n/dev/block/dm-5  6154240 812340   5341900  14% /data\n";
    let (free, total) = parse_df_data(df);
    assert_eq!(free, Some(5_341_900 / 1024));
    assert_eq!(total, Some(6_154_240 / 1024));
    assert_eq!(parse_df_data("header only\n"), (None, None));
}

#[test]
fn parse_ip_addr_keeps_only_inet_lines() {
    let out = "1: lo    inet 127.0.0.1/8 scope host lo\\       valid_lft forever\n\
               2: wlan0    inet 10.0.2.16/24 brd 10.0.2.255 scope global wlan0\\    valid_lft\n\
               2: wlan0    link/ether 02:00:00:00:00:00 brd ff:ff:ff:ff:ff:ff\n";
    let ifs = parse_ip_addr(out);
    assert_eq!(ifs.len(), 2);
    assert_eq!(ifs[1].name, "wlan0");
    assert_eq!(ifs[1].addr, "10.0.2.16/24");
}

#[test]
fn decode_hex_addr_reverses_the_le_ipv4_and_reads_the_port() {
    // 0100007F:1F90 is 127.0.0.1:8080; a 32-digit IPv6 address gives None.
    assert_eq!(decode_hex_addr("0100007F:1F90").as_deref(), Some("127.0.0.1:8080"));
    assert_eq!(decode_hex_addr("00000000:0000").as_deref(), Some("0.0.0.0:0"));
    assert_eq!(decode_hex_addr("00000000000000000000000001000000:0035"), None);
}

#[test]
fn parse_proc_net_reads_tcp_rows_and_maps_the_uid() {
    let uid_pkg = parse_pm_list_packages_u("package:com.example.app uid:10123\npackage:x uid:10124\n");
    let tcp = "  sl  local_address rem_address   st tx_queue rx_queue tr tm->when retrnsmt   uid  timeout inode\n   \
               0: 0100007F:1F90 00000000:0000 0A 00000000:00000000 00:00000000 00000000  1000        0 111 1 0 0\n   \
               1: 1002000A:D9F2 08080808:01BB 01 00000000:00000000 00:00000000 00000000 10123        0 222 1 0 0\n";
    let conns = parse_proc_net(tcp, "tcp", &uid_pkg);
    assert_eq!(conns.len(), 2);
    assert_eq!(conns[0].state, "LISTEN");
    assert_eq!(conns[0].local, "127.0.0.1:8080");
    assert_eq!(conns[1].state, "ESTABLISHED");
    assert_eq!(conns[1].remote, "8.8.8.8:443");
    assert_eq!(conns[1].uid, 10123);
    assert_eq!(conns[1].package.as_deref(), Some("com.example.app"));
}

#[test]
fn hw_keyboard_fix_appends_the_key_when_it_is_missing() {
    let out = hw_keyboard_fix("hw.ramSize=2048\nhw.gpu.enabled=yes\n")
        .expect("a config without hw.keyboard needs the fix");
    assert!(out.contains("hw.ramSize=2048"));
    assert!(out.contains("hw.gpu.enabled=yes"));
    assert!(out.ends_with("hw.keyboard=yes\n"));
}

#[test]
fn hw_keyboard_fix_replaces_an_explicit_no() {
    let out = hw_keyboard_fix("hw.keyboard=no\nhw.ramSize=2048\n").expect("hw.keyboard=no needs the fix");
    assert!(!out.contains("hw.keyboard=no"));
    assert_eq!(out.matches("hw.keyboard").count(), 1);
    assert!(out.contains("hw.keyboard=yes"));
    assert!(out.contains("hw.ramSize=2048"));
}

#[test]
fn hw_keyboard_fix_is_a_no_op_when_already_yes() {
    assert_eq!(hw_keyboard_fix("hw.keyboard=yes\nhw.ramSize=2048\n"), None);
    assert_eq!(hw_keyboard_fix("hw.keyboard = YES\n"), None);
}
