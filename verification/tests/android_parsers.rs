//! The parsers for the Android SDK tools' output and data files, on captures of that output.

use emu_studio::android::avd_list::parse_avdmanager_list_avd;
use emu_studio::android::catalog;
use emu_studio::android::devices::{self, parse_density_dpi, DeviceSource};
use emu_studio::android::sysimg::{self, android_version_name, to_system_image, SysImgEntry};
use emu_studio::model::component::{ComponentId, HostArch, HostOs};
use emu_studio::model::device::FormFactor;
use emu_studio::model::image::{Abi, ImageCoord, ImageType};

const AVD_LIST: &str = "Available Android Virtual Devices:
    Name: Pixel6_API24
  Device: pixel_6 (Google)
    Path: /home/user/.android/avd/Pixel6_API24.avd
  Target:
          Based on: Android 7.0 (\"Nougat\") Tag/ABI: default/x86_64
  Sdcard: 512 MB
---------
    Name: Wear_Small_API24
  Device: wearos_small_round (Google)
    Path: /home/user/.android/avd/Wear_Small_API24.avd
  Target:
          Based on: Android 7.0 (\"Nougat\") Tag/ABI: android-wear/x86_64
  Sdcard: 512 MB

The following Android Virtual Devices could not be loaded:
    Name: Broken_API99
    Path: /home/user/.android/avd/Broken_API99.avd
   Error: Missing system image android-99/default/x86_64.
";

const REPOSITORY: &str = r#"<?xml version="1.0" encoding="UTF-8" standalone="yes"?>
<sdk:sdk-repository xmlns:sdk="http://schemas.android.com/sdk/android/repo/repository2/03" xmlns:common="http://schemas.android.com/repository/android/common/02" xmlns:generic="http://schemas.android.com/repository/android/generic/02" xmlns:xsi="http://www.w3.org/2001/XMLSchema-instance">
  <remotePackage path="cmdline-tools;latest">
    <type-details xsi:type="generic:genericDetailsType"/>
    <revision><major>23</major><minor>0</minor></revision>
    <display-name>Android SDK Command-line Tools (latest)</display-name>
    <archives>
      <archive>
        <complete>
          <size>181052239</size>
          <checksum type="sha1">e025545c62a8e64c7559119566a569fb1dec5f60</checksum>
          <url>commandlinetools-linux-16111833_latest.zip</url>
        </complete>
        <host-os>linux</host-os>
      </archive>
      <archive>
        <complete>
          <size>181026452</size>
          <checksum type="sha1">6a1c0b28e6b8a2a3d2b41b9a3c0c3f4ed0fbc3a1</checksum>
          <url>commandlinetools-mac_x64-16111833_latest.zip</url>
        </complete>
        <host-os>macosx</host-os>
        <host-arch>x64</host-arch>
      </archive>
      <archive>
        <complete>
          <size>181026460</size>
          <checksum type="sha1">9b2f4a0f1c1b6b50cf3d0bdc8b5c55d1b0f1e2a7</checksum>
          <url>commandlinetools-mac_arm64-16111833_latest.zip</url>
        </complete>
        <host-os>macosx</host-os>
        <host-arch>aarch64</host-arch>
      </archive>
      <archive>
        <complete>
          <size>181000211</size>
          <checksum type="sha1">0d1a8f2c3b4e5f60718293a4b5c6d7e8f9a0b1c2</checksum>
          <url>commandlinetools-win-16111833_latest.zip</url>
        </complete>
        <host-os>windows</host-os>
      </archive>
    </archives>
  </remotePackage>
  <remotePackage path="platform-tools">
    <type-details xsi:type="generic:genericDetailsType"/>
    <revision><major>37</major><minor>0</minor><micro>1</micro></revision>
    <display-name>Android SDK Platform-Tools</display-name>
    <archives>
      <archive>
        <complete>
          <size>7845021</size>
          <checksum type="sha1">1f3e5c7a9b0d2f4a6c8e0b1d3f5a7c9e0b2d4f6a</checksum>
          <url>platform-tools_r37.0.1-darwin.zip</url>
        </complete>
        <host-os>macosx</host-os>
      </archive>
      <archive>
        <complete>
          <size>7012553</size>
          <checksum type="sha1">2a4c6e8f0b1d3f5a7c9e1b3d5f7a9c0e2b4d6f8a</checksum>
          <url>platform-tools_r37.0.1-linux.zip</url>
        </complete>
        <host-os>linux</host-os>
      </archive>
      <archive>
        <complete>
          <size>6899104</size>
          <checksum type="sha1">3b5d7f9a1c2e4a6c8e0f2b4d6a8c0e1f3b5d7f9a</checksum>
          <url>platform-tools_r37.0.1-win.zip</url>
        </complete>
        <host-os>windows</host-os>
      </archive>
    </archives>
  </remotePackage>
  <remotePackage path="emulator">
    <type-details xsi:type="generic:genericDetailsType"/>
    <revision><major>37</major><minor>2</minor><micro>7</micro></revision>
    <display-name>Android Emulator</display-name>
    <archives>
      <archive>
        <complete>
          <size>300120455</size>
          <checksum type="sha1">4c6e8a0b2d4f6a8c0e2b4d6f8a0c2e4b6d8f0a2c</checksum>
          <url>emulator-darwin_aarch64-14391238.zip</url>
        </complete>
        <host-os>macosx</host-os>
        <host-arch>aarch64</host-arch>
      </archive>
      <archive>
        <complete>
          <size>312450877</size>
          <checksum type="sha1">5d7f9b1c3e5a7c9e1b3d5f7a9c1e3b5d7f9a1c3e</checksum>
          <url>emulator-darwin_x64-14391238.zip</url>
        </complete>
        <host-os>macosx</host-os>
        <host-arch>x64</host-arch>
      </archive>
      <archive>
        <complete>
          <size>345901233</size>
          <checksum type="sha1">6e8a0c2d4f6b8d0f2a4c6e8b0d2f4a6c8e0b2d4f</checksum>
          <url>emulator-linux_x64-14391238.zip</url>
        </complete>
        <host-os>linux</host-os>
        <host-arch>x64</host-arch>
      </archive>
      <archive>
        <complete>
          <size>398765432</size>
          <checksum type="sha1">7f9b1d3e5a7c9f1b3d5e7a9c1f3b5d7e9a1c3f5b</checksum>
          <url>emulator-windows_x64-14391238.zip</url>
        </complete>
        <host-os>windows</host-os>
        <host-arch>x64</host-arch>
      </archive>
    </archives>
  </remotePackage>
</sdk:sdk-repository>
"#;

const DEVICES_XML: &str = r#"<?xml version="1.0" encoding="UTF-8"?>
<d:devices xmlns:d="http://schemas.android.com/sdk/devices/7" xmlns:xsi="http://www.w3.org/2001/XMLSchema-instance">
  <d:device>
    <d:name>Medium Phone</d:name>
    <d:id>medium_phone</d:id>
    <d:manufacturer>Generic</d:manufacturer>
    <d:hardware>
      <d:screen>
        <d:screen-size>normal</d:screen-size>
        <d:diagonal-length>6.4</d:diagonal-length>
        <d:pixel-density>420dpi</d:pixel-density>
        <d:screen-ratio>long</d:screen-ratio>
        <d:dimensions>
          <d:x-dimension>1080</d:x-dimension>
          <d:y-dimension>2400</d:y-dimension>
        </d:dimensions>
        <d:xdpi>420</d:xdpi>
        <d:ydpi>420</d:ydpi>
        <d:touch>
          <d:multitouch>jazz-hands</d:multitouch>
          <d:mechanism>finger</d:mechanism>
          <d:screen-type>capacitive</d:screen-type>
        </d:touch>
      </d:screen>
      <d:networking>
        Bluetooth
        Wifi
        NFC
      </d:networking>
      <d:sensors>
        Accelerometer
        Barometer
        Compass
        GPS
        Gyroscope
        LightSensor
        ProximitySensor
      </d:sensors>
      <d:mic>true</d:mic>
      <d:ram unit="GiB">8</d:ram>
    </d:hardware>
  </d:device>
  <d:device>
    <d:name>Medium Tablet</d:name>
    <d:id>medium_tablet</d:id>
    <d:manufacturer>Generic</d:manufacturer>
    <d:hardware>
      <d:screen>
        <d:diagonal-length>10.05</d:diagonal-length>
        <d:pixel-density>xhdpi</d:pixel-density>
        <d:dimensions>
          <d:x-dimension>2560</d:x-dimension>
          <d:y-dimension>1600</d:y-dimension>
        </d:dimensions>
      </d:screen>
      <d:sensors>
        Accelerometer
        Gyroscope
      </d:sensors>
      <d:ram unit="GiB">4</d:ram>
    </d:hardware>
  </d:device>
  <d:device>
    <d:name>7.6" Fold-in with outer display</d:name>
    <d:id>7.6in Foldable</d:id>
    <d:manufacturer>Generic</d:manufacturer>
    <d:hardware>
      <d:screen>
        <d:diagonal-length>7.6</d:diagonal-length>
        <d:pixel-density>420dpi</d:pixel-density>
        <d:dimensions>
          <d:x-dimension>1768</d:x-dimension>
          <d:y-dimension>2208</d:y-dimension>
        </d:dimensions>
      </d:screen>
      <d:sensors>
        Accelerometer
        HingeAngle
      </d:sensors>
      <d:ram unit="GiB">1.5</d:ram>
    </d:hardware>
  </d:device>
</d:devices>
"#;

const NEXUS_XML: &str = r#"<?xml version="1.0" encoding="UTF-8"?>
<d:devices xmlns:d="http://schemas.android.com/sdk/devices/7">
  <d:device>
    <d:name>Pixel 6</d:name>
    <d:id>pixel_6</d:id>
    <d:manufacturer>Google</d:manufacturer>
    <d:hardware>
      <d:screen>
        <d:screen-size>large</d:screen-size>
        <d:diagonal-length>6.4</d:diagonal-length>
        <d:pixel-density>420dpi</d:pixel-density>
        <d:dimensions>
          <d:x-dimension>1080</d:x-dimension>
          <d:y-dimension>2400</d:y-dimension>
        </d:dimensions>
      </d:screen>
      <d:sensors>
        Accelerometer
        Gyroscope
      </d:sensors>
      <d:ram unit="GiB">8</d:ram>
    </d:hardware>
  </d:device>
</d:devices>
"#;

const WEAR_XML: &str = r#"<?xml version="1.0" encoding="UTF-8"?>
<d:devices xmlns:d="http://schemas.android.com/sdk/devices/7">
  <d:device>
    <d:name>Wear OS Small Round</d:name>
    <d:id>wearos_small_round</d:id>
    <d:manufacturer>Google</d:manufacturer>
    <d:hardware>
      <d:screen>
        <d:screen-size>small</d:screen-size>
        <d:diagonal-length>1.2</d:diagonal-length>
        <d:pixel-density>hdpi</d:pixel-density>
        <d:dimensions>
          <d:x-dimension>384</d:x-dimension>
          <d:y-dimension>384</d:y-dimension>
        </d:dimensions>
      </d:screen>
      <d:ram unit="MiB">512</d:ram>
    </d:hardware>
    <d:tag-id>android-wear</d:tag-id>
  </d:device>
</d:devices>
"#;

const TV_XML: &str = r#"<?xml version="1.0" encoding="UTF-8"?>
<d:devices xmlns:d="http://schemas.android.com/sdk/devices/7">
  <d:device>
    <d:name>Television (1080p)</d:name>
    <d:id>tv_1080p</d:id>
    <d:manufacturer>Google</d:manufacturer>
    <d:hardware>
      <d:screen>
        <d:diagonal-length>55.0</d:diagonal-length>
        <d:pixel-density>xhdpi</d:pixel-density>
        <d:dimensions>
          <d:x-dimension>1920</d:x-dimension>
          <d:y-dimension>1080</d:y-dimension>
        </d:dimensions>
      </d:screen>
      <d:ram unit="GiB">2</d:ram>
    </d:hardware>
    <d:tag-id>android-tv</d:tag-id>
  </d:device>
</d:devices>
"#;

const AUTOMOTIVE_XML: &str = r#"<?xml version="1.0" encoding="UTF-8"?>
<d:devices xmlns:d="http://schemas.android.com/sdk/devices/7">
  <d:device>
    <d:name>Automotive (1024p landscape)</d:name>
    <d:id>automotive_1024p_landscape</d:id>
    <d:manufacturer>Google</d:manufacturer>
    <d:hardware>
      <d:screen>
        <d:diagonal-length>8.4</d:diagonal-length>
        <d:pixel-density>mdpi</d:pixel-density>
        <d:dimensions>
          <d:x-dimension>1024</d:x-dimension>
          <d:y-dimension>768</d:y-dimension>
        </d:dimensions>
      </d:screen>
      <d:ram unit="KiB">3774492</d:ram>
    </d:hardware>
    <d:tag-id>android-automotive</d:tag-id>
  </d:device>
  <d:device>
    <d:name>Automotive (1408p landscape) with Google Play</d:name>
    <d:id>automotive_1408p_landscape_with_google_apis</d:id>
    <d:manufacturer>Google</d:manufacturer>
    <d:hardware>
      <d:screen>
        <d:diagonal-length>11.7</d:diagonal-length>
        <d:pixel-density>mdpi</d:pixel-density>
        <d:dimensions>
          <d:x-dimension>1408</d:x-dimension>
          <d:y-dimension>792</d:y-dimension>
        </d:dimensions>
      </d:screen>
      <d:ram unit="KiB">3774492</d:ram>
    </d:hardware>
    <d:tag-id>android-automotive-playstore</d:tag-id>
  </d:device>
</d:devices>
"#;

const DESKTOP_XML: &str = r#"<?xml version="1.0" encoding="UTF-8"?>
<d:devices xmlns:d="http://schemas.android.com/sdk/devices/7">
  <d:device>
    <d:name>Medium Desktop</d:name>
    <d:id>desktop_medium</d:id>
    <d:manufacturer>Generic</d:manufacturer>
    <d:hardware>
      <d:screen>
        <d:diagonal-length>15.6</d:diagonal-length>
        <d:pixel-density>mdpi</d:pixel-density>
        <d:dimensions>
          <d:x-dimension>1920</d:x-dimension>
          <d:y-dimension>1080</d:y-dimension>
        </d:dimensions>
      </d:screen>
      <d:ram unit="GiB">4</d:ram>
    </d:hardware>
  </d:device>
</d:devices>
"#;

const SYSIMG_PLAYSTORE: &str = r#"<?xml version="1.0" encoding="UTF-8" standalone="yes"?>
<sys-img:sdk-sys-img xmlns:sys-img="http://schemas.android.com/sdk/android/repo/sys-img2/03" xmlns:common="http://schemas.android.com/repository/android/common/02" xmlns:xsi="http://www.w3.org/2001/XMLSchema-instance">
  <remotePackage path="system-images;android-34;google_apis_playstore;arm64-v8a">
    <type-details xsi:type="sys-img:sysImgDetailsType">
      <api-level>34</api-level>
      <tag><id>google_apis_playstore</id><display>Google Play</display></tag>
      <abi>arm64-v8a</abi>
    </type-details>
    <revision><major>14</major></revision>
    <display-name>Google Play ARM 64 v8a System Image</display-name>
    <archives>
      <archive>
        <complete>
          <size>1548905381</size>
          <checksum type="sha1">c307c3301dc52635ebc78b943c39b3c377856ebc</checksum>
          <url>arm64-v8a-34_r14.zip</url>
        </complete>
      </archive>
    </archives>
  </remotePackage>
  <remotePackage path="system-images;android-34;google_apis_playstore;x86_64">
    <type-details xsi:type="sys-img:sysImgDetailsType">
      <api-level>34</api-level>
      <tag><id>google_apis_playstore</id><display>Google Play</display></tag>
      <abi>x86_64</abi>
    </type-details>
    <revision><major>14</major></revision>
    <display-name>Google Play Intel x86_64 Atom System Image</display-name>
    <archives>
      <archive>
        <complete>
          <size>1612394021</size>
          <checksum type="sha1">8a2f90e4b7c1d3e5f7a9b1c3d5e7f9a1b3c5d7e9</checksum>
          <url>x86_64-34_r14.zip</url>
        </complete>
      </archive>
    </archives>
  </remotePackage>
  <remotePackage path="system-images;android-34-ext12;google_apis_playstore;arm64-v8a">
    <type-details xsi:type="sys-img:sysImgDetailsType">
      <api-level>34</api-level>
      <extension-level>12</extension-level>
      <tag><id>google_apis_playstore</id><display>Google Play</display></tag>
      <abi>arm64-v8a</abi>
    </type-details>
    <revision><major>1</major></revision>
    <archives>
      <archive>
        <complete>
          <size>1601111111</size>
          <checksum type="sha1">1b3d5f7a9c1e3b5d7f9a1c3e5b7d9f1a3c5e7b9d</checksum>
          <url>arm64-v8a-34-ext12_r01.zip</url>
        </complete>
      </archive>
    </archives>
  </remotePackage>
</sys-img:sdk-sys-img>
"#;

const SYSIMG_DEFAULT: &str = r#"<?xml version="1.0" encoding="UTF-8" standalone="yes"?>
<sys-img:sdk-sys-img xmlns:sys-img="http://schemas.android.com/sdk/android/repo/sys-img2/03">
  <remotePackage path="system-images;android-35;default;x86_64">
    <revision><major>2</major></revision>
    <archives>
      <archive>
        <complete>
          <size>1371234567</size>
          <checksum type="sha1">2c4e6a8c0e2a4c6e8a0c2e4a6c8e0a2c4e6a8c0e</checksum>
          <url>x86_64-35_r02.zip</url>
        </complete>
      </archive>
    </archives>
  </remotePackage>
</sys-img:sdk-sys-img>
"#;

const SYSIMG_WEAR: &str = r#"<?xml version="1.0" encoding="UTF-8" standalone="yes"?>
<sys-img:sdk-sys-img xmlns:sys-img="http://schemas.android.com/sdk/android/repo/sys-img2/03">
  <remotePackage path="system-images;android-33;android-wear;x86_64">
    <revision><major>6</major></revision>
    <archives>
      <archive>
        <complete>
          <size>912345678</size>
          <checksum type="sha1">3d5f7b9d1f3b5d7f9b1d3f5b7d9f1b3d5f7b9d1f</checksum>
          <url>x86_64-33_r06.zip</url>
        </complete>
      </archive>
    </archives>
  </remotePackage>
</sys-img:sdk-sys-img>
"#;

// ---------------------------------------------------------------------------
// avdmanager list avd
// ---------------------------------------------------------------------------

#[test]
fn parses_the_real_capture_into_two_loadable_and_one_broken() {
    let entries = parse_avdmanager_list_avd(AVD_LIST);
    assert_eq!(entries.len(), 3);

    let pixel = &entries[0];
    assert_eq!(pixel.name, "Pixel6_API24");
    assert_eq!(pixel.device.as_deref(), Some("pixel_6 (Google)"));
    assert_eq!(pixel.path.as_deref(), Some("/home/user/.android/avd/Pixel6_API24.avd"));
    assert_eq!(pixel.tag_abi.as_deref(), Some("default/x86_64"));
    assert_eq!(pixel.based_on.as_deref(), Some(r#"Android 7.0 ("Nougat")"#));
    assert!(pixel.loadable);
    assert!(pixel.error.is_none());

    assert_eq!(entries[1].name, "Wear_Small_API24");
    assert!(entries[1].loadable);

    let broken = &entries[2];
    assert_eq!(broken.name, "Broken_API99");
    assert!(!broken.loadable);
    assert_eq!(broken.error.as_deref(), Some("Missing system image android-99/default/x86_64."));
    assert!(broken.device.is_none());
}

#[test]
fn empty_listing_is_no_entries() {
    assert!(parse_avdmanager_list_avd("Available Android Virtual Devices:\n").is_empty());
    assert!(parse_avdmanager_list_avd("").is_empty());
}

#[test]
fn a_lone_broken_entry_is_still_found() {
    let out = "Available Android Virtual Devices:\n\n\
               The following Android Virtual Devices could not be loaded:\n\
               \x20   Name: Ghost\n\
               \x20   Path: /x/Ghost.avd\n\
               \x20  Error: Missing system image android-40/default/x86_64.\n";
    let entries = parse_avdmanager_list_avd(out);
    assert_eq!(entries.len(), 1);
    assert_eq!(entries[0].name, "Ghost");
    assert!(!entries[0].loadable);
}

// ---------------------------------------------------------------------------
// Component catalog
// ---------------------------------------------------------------------------

#[test]
fn resolves_linux_x64() {
    let got = catalog::parse(REPOSITORY.as_bytes(), HostOs::Linux, HostArch::X64).expect("parse");
    assert_eq!(got.len(), 3);

    let cmdline = &got[0];
    assert_eq!(cmdline.id, ComponentId::CmdlineTools);
    assert_eq!(cmdline.version, "23.0");
    assert_eq!(
        cmdline.url.as_str(),
        "https://dl.google.com/android/repository/commandlinetools-linux-16111833_latest.zip"
    );
    assert_eq!(cmdline.sha1, "e025545c62a8e64c7559119566a569fb1dec5f60");
    assert_eq!(cmdline.size_bytes, 181_052_239);

    let platform_tools = &got[1];
    assert_eq!(platform_tools.version, "37.0.1");
    assert!(platform_tools.url.as_str().ends_with("-linux.zip"));

    let emulator = &got[2];
    assert_eq!(emulator.version, "37.2.7");
    assert!(emulator.url.as_str().contains("emulator-linux_x64"));
}

#[test]
fn resolves_macos_arm64_including_arch_specific_archives() {
    let got = catalog::parse(REPOSITORY.as_bytes(), HostOs::MacOs, HostArch::Arm64).expect("parse");
    assert!(got[0].url.as_str().contains("mac_arm64"));
    assert!(got[1].url.as_str().ends_with("-darwin.zip"));
    assert!(got[2].url.as_str().contains("darwin_aarch64"));
}

#[test]
fn resolves_windows_x64() {
    let got = catalog::parse(REPOSITORY.as_bytes(), HostOs::Windows, HostArch::X64).expect("parse");
    assert!(got[0].url.as_str().contains("commandlinetools-win-"));
    assert!(got[1].url.as_str().ends_with("-win.zip"));
    assert!(got[2].url.as_str().contains("emulator-windows_x64"));
}

#[test]
fn missing_archive_for_host_is_not_found_not_a_panic() {
    let err = catalog::parse(REPOSITORY.as_bytes(), HostOs::Windows, HostArch::Arm64).unwrap_err();
    assert_eq!(err.code(), "not_found");
    assert!(err.to_string().contains("emulator"));
}

#[test]
fn unknown_package_is_not_found() {
    let empty = b"<sdk:sdk-repository xmlns:sdk=\"http://schemas.android.com/sdk/android/repo/repository2/03\"/>";
    let err = catalog::parse(empty, HostOs::Linux, HostArch::X64).unwrap_err();
    assert_eq!(err.code(), "not_found");
    assert!(err.to_string().contains("cmdline-tools;latest"));
}

#[test]
fn catalog_malformed_xml_is_a_parse_error_not_a_panic() {
    let err = catalog::parse(b"<not-xml", HostOs::Linux, HostArch::X64).unwrap_err();
    assert_eq!(err.code(), "parse_error");
}

#[test]
fn catalog_rejects_text_that_is_not_utf8() {
    let err = catalog::parse(&[0xff, 0xfe, 0x3c], HostOs::Linux, HostArch::X64).unwrap_err();
    assert_eq!(err.code(), "parse_error");
    assert!(err.to_string().contains("not valid utf-8"));
}

// ---------------------------------------------------------------------------
// Device definitions
// ---------------------------------------------------------------------------

#[test]
fn generic_file_infers_phone_tablet_and_foldable() {
    let got = devices::parse(DEVICES_XML.as_bytes(), DeviceSource::Handset).expect("parse");
    assert_eq!(got.len(), 3);

    let phone = got.iter().find(|d| d.id == "medium_phone").expect("phone");
    assert_eq!(phone.form_factor, FormFactor::Phone);
    assert_eq!(phone.oem, "Generic");
    assert_eq!(phone.default_ram_mb, 8192);
    assert!(phone.sensors.contains(&"Accelerometer".to_string()));
    assert_eq!(phone.screen.width_px, 1080);
    assert_eq!(phone.screen.height_px, 2400);
    assert_eq!(phone.screen.density_dpi, 420);

    let tablet = got.iter().find(|d| d.id == "medium_tablet").expect("tablet");
    assert_eq!(tablet.form_factor, FormFactor::Tablet);

    let foldable = got.iter().find(|d| d.id == "7.6in Foldable").expect("foldable");
    assert_eq!(foldable.form_factor, FormFactor::Foldable);
}

#[test]
fn nexus_file_is_a_phone() {
    let got = devices::parse(NEXUS_XML.as_bytes(), DeviceSource::Handset).expect("parse");
    assert_eq!(got.len(), 1);
    assert_eq!(got[0].id, "pixel_6");
    assert_eq!(got[0].display_name, "Pixel 6");
    assert_eq!(got[0].oem, "Google");
    assert_eq!(got[0].form_factor, FormFactor::Phone);
    assert_eq!(got[0].default_ram_mb, 8192);
}

#[test]
fn wear_tv_automotive_desktop_map_by_source() {
    let wear = devices::parse(WEAR_XML.as_bytes(), DeviceSource::Wear).expect("parse");
    assert_eq!(wear.len(), 1);
    assert_eq!(wear[0].form_factor, FormFactor::Wear);
    assert_eq!(wear[0].default_ram_mb, 512);

    let tv = devices::parse(TV_XML.as_bytes(), DeviceSource::Tv).expect("parse");
    assert_eq!(tv.len(), 1);
    assert_eq!(tv[0].form_factor, FormFactor::Tv);

    let automotive = devices::parse(AUTOMOTIVE_XML.as_bytes(), DeviceSource::Automotive).expect("parse");
    assert_eq!(automotive.len(), 2);
    assert!(automotive.iter().all(|d| d.form_factor == FormFactor::Automotive));
    let landscape_1024 = automotive
        .iter()
        .find(|d| d.id == "automotive_1024p_landscape")
        .expect("device");
    assert_eq!(landscape_1024.default_ram_mb, 3_774_492 / 1024);

    let desktop = devices::parse(DESKTOP_XML.as_bytes(), DeviceSource::Desktop).expect("parse");
    assert_eq!(desktop.len(), 1);
    assert_eq!(desktop[0].form_factor, FormFactor::Desktop);
}

#[test]
fn density_bucket_names_resolve_to_real_dpi_values() {
    assert_eq!(parse_density_dpi("420dpi"), Some(420));
    assert_eq!(parse_density_dpi("mdpi"), Some(160));
    assert_eq!(parse_density_dpi("xxhdpi"), Some(480));
    assert_eq!(parse_density_dpi("not-a-density"), None);
}

#[test]
fn empty_document_is_an_empty_list_not_an_error() {
    let empty = b"<d:devices xmlns:d=\"http://schemas.android.com/sdk/devices/7\"/>";
    assert_eq!(devices::parse(empty, DeviceSource::Handset).expect("parse"), vec![]);
}

#[test]
fn devices_malformed_xml_is_a_parse_error_not_a_panic() {
    let err = devices::parse(b"<not-xml", DeviceSource::Handset).unwrap_err();
    assert_eq!(err.code(), "parse_error");
}

#[test]
fn fractional_gib_ram_rounds_to_whole_mib() {
    let got = devices::parse(DEVICES_XML.as_bytes(), DeviceSource::Handset).expect("parse");
    let foldable = got.iter().find(|d| d.id == "7.6in Foldable").expect("foldable");
    assert_eq!(foldable.default_ram_mb, 1536);
    assert_eq!(foldable.screen.diagonal_in, "7.6");
}

#[test]
fn ram_figures_convert_per_unit_and_round_half_up() {
    assert_eq!(devices::parse_ram_text("8", "GiB"), Some(8192));
    assert_eq!(devices::parse_ram_text(" 512 ", "MiB"), Some(512));
    assert_eq!(devices::parse_ram_text("2.5", "MiB"), Some(3));
    assert_eq!(devices::parse_ram_text("2.4", "MiB"), Some(2));
    assert_eq!(devices::parse_ram_text("1536", "KiB"), Some(2));
    assert_eq!(devices::parse_ram_text("0.2", "MiB"), Some(1));
    assert_eq!(devices::parse_ram_text("-3", "GiB"), Some(1));
    assert_eq!(devices::parse_ram_text("9999999", "GiB"), Some(u32::MAX));
    assert_eq!(devices::parse_ram_text("lots", "GiB"), None);
    assert_eq!(devices::parse_ram_text("1024", "bogus"), Some(1024));
}

#[test]
fn float_literals_follow_the_standard_grammar() {
    let ok = ["6.4", "7", ".5", "5.", "+1e3", "-2.5E-2", "inf", "-Infinity", "NaN"];
    for s in ok {
        let cs: Vec<char> = s.chars().collect();
        assert!(devices::is_float_literal(&cs), "{s}");
    }
    let bad = ["", ".", "1e", "e5", " 6.4", "6.4in", "1.2.3", "+"];
    for s in bad {
        let cs: Vec<char> = s.chars().collect();
        assert!(!devices::is_float_literal(&cs), "{s}");
    }
}

#[test]
fn a_device_with_an_unreadable_diagonal_is_skipped() {
    let xml = NEXUS_XML.replace("<d:diagonal-length>6.4</d:diagonal-length>", "<d:diagonal-length>six</d:diagonal-length>");
    let got = devices::parse(xml.as_bytes(), DeviceSource::Handset).expect("parse");
    assert!(got.is_empty());
}

#[test]
fn handset_form_factor_reads_id_and_name_case_blind() {
    assert_eq!(devices::form_factor_for(DeviceSource::Handset, "x", "Big TABLET"), FormFactor::Tablet);
    assert_eq!(devices::form_factor_for(DeviceSource::Handset, "pixel_rollable", "P"), FormFactor::Foldable);
    assert_eq!(devices::form_factor_for(DeviceSource::Handset, "pixel_6", "Pixel 6"), FormFactor::Phone);
    assert_eq!(devices::form_factor_for(DeviceSource::Tv, "tablet", "tablet"), FormFactor::Tv);
}

#[test]
fn device_resources_pair_each_file_with_its_source() {
    let r = devices::device_xml_resources();
    assert_eq!(r.len(), 6);
    assert_eq!(r[0], ("com/android/sdklib/devices/devices.xml", DeviceSource::Handset));
    assert_eq!(r[5], ("com/android/sdklib/devices/desktop.xml", DeviceSource::Desktop));
}

// ---------------------------------------------------------------------------
// System-image manifests
// ---------------------------------------------------------------------------

#[test]
fn resolves_playstore_entries_and_skips_extension_level() {
    let got = sysimg::parse(SYSIMG_PLAYSTORE.as_bytes()).expect("parse");
    assert_eq!(got.len(), 2);

    let arm = got.iter().find(|e| e.coord.abi == Abi::Arm64V8a).expect("arm entry");
    assert_eq!(arm.coord.api, 34);
    assert_eq!(arm.coord.image_type, ImageType::GoogleApisPlaystore);
    assert_eq!(arm.revision, "14");
    assert_eq!(arm.size_bytes, Some(1_548_905_381));
    assert_eq!(arm.sha1.as_deref(), Some("c307c3301dc52635ebc78b943c39b3c377856ebc"));

    assert!(got.iter().any(|e| e.coord.abi == Abi::X86_64));
    assert!(got
        .iter()
        .all(|e| e.coord.to_string() != "system-images;android-34-ext12;google_apis_playstore;arm64-v8a"));
}

#[test]
fn resolves_default_tag() {
    let got = sysimg::parse(SYSIMG_DEFAULT.as_bytes()).expect("parse");
    assert_eq!(got.len(), 1);
    assert_eq!(got[0].coord.image_type, ImageType::Default);
    assert_eq!(got[0].coord.abi, Abi::X86_64);
}

#[test]
fn resolves_wear_tag() {
    let got = sysimg::parse(SYSIMG_WEAR.as_bytes()).expect("parse");
    assert_eq!(got.len(), 1);
    assert_eq!(got[0].coord.image_type, ImageType::AndroidWear);
}

#[test]
fn to_system_image_fills_marketing_version_and_installed_flag() {
    let entry = SysImgEntry {
        coord: ImageCoord::new(34, ImageType::GoogleApisPlaystore, Abi::Arm64V8a),
        revision: "14".into(),
        size_bytes: Some(100),
        sha1: Some("abc".into()),
    };
    let img = to_system_image(&entry, true);
    assert_eq!(img.android_version, "14");
    assert!(img.installed);
    assert_eq!(img.download_size_bytes, Some(100));
}

#[test]
fn android_version_name_falls_back_to_api_level_for_unknown() {
    assert_eq!(android_version_name(34), "14");
    assert_eq!(android_version_name(999), "999");
}

#[test]
fn empty_manifest_is_an_empty_list_not_an_error() {
    let empty = b"<sys-img:sdk-sys-img xmlns:sys-img=\"http://schemas.android.com/sdk/android/repo/sys-img2/03\"/>";
    assert_eq!(sysimg::parse(empty).expect("parse"), vec![]);
}

#[test]
fn sysimg_malformed_xml_is_a_parse_error_not_a_panic() {
    let err = sysimg::parse(b"<not-xml").unwrap_err();
    assert_eq!(err.code(), "parse_error");
}
